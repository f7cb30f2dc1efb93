use yoursfm::radio::generate_track_id;
use yoursfm::spotify::{join_artists, playlist_tracks_from_pages, playlist_tracks_url, yoursfm_tracks_from_spotify, SpotifyTrack};

fn sp(name: &str, artists: &[&str]) -> SpotifyTrack {
    SpotifyTrack {
        name: name.to_string(),
        album_name: format!("{} album", name),
        album_release_date: "1999-01-01".to_string(),
        artists: artists.iter().map(|a| a.to_string()).collect(),
    }
}

#[test]
fn artists_are_joined_last_first() {
    assert_eq!(join_artists(&vec!["A".to_string()]), "A");
    assert_eq!(join_artists(&vec!["A".to_string(), "B".to_string(), "C".to_string()]), "C, A, B");
}

#[test]
fn station_tracks_carry_joined_artists_and_ids() {
    let out = yoursfm_tracks_from_spotify(&vec![sp("Song", &["X", "Y"])]);
    assert_eq!(out.len(), 1);
    assert_eq!(out[0].name, "Song");
    assert_eq!(out[0].artist, "Y, X");
    assert_eq!(out[0].album_name, "Song album");
    assert_eq!(out[0].album_release_date, "1999-01-01");
    assert_eq!(
        out[0].id,
        generate_track_id("Song".into(), "Y, X".into(), "Song album".into(), "1999-01-01".into())
    );
}

#[test]
fn single_page_playlist_lists_its_tracks() {
    let listing = playlist_tracks_from_pages(&vec![vec![sp("a", &["x"]), sp("b", &["x"])]]);
    let names: Vec<&str> = listing.iter().map(|t| t.name.as_str()).collect();
    assert_eq!(names, vec!["a", "b"]);
}

#[test]
fn paged_playlist_lists_every_prefix() {
    let pages = vec![vec![sp("p1", &["x"])], vec![sp("p2", &["x"])], vec![sp("p3", &["x"])]];
    let listing = playlist_tracks_from_pages(&pages);
    let names: Vec<&str> = listing.iter().map(|t| t.name.as_str()).collect();
    assert_eq!(names, vec!["p1", "p1", "p2", "p1", "p2", "p3"]);
}

#[test]
fn playlist_url() {
    assert_eq!(playlist_tracks_url("abc"), "https://api.spotify.com/v1/playlists/abc/tracks?limit=50");
}
