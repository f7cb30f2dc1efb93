//! What the station keeps of a Spotify playlist: tracks with their joined
//! artists and a stable id, gathered page by page.
use vstd::prelude::*;
use vstd::string::*;

use crate::radio::{generate_track_id, track_id_name, uuid_v5_url_text, YoursFMTrack};

verus! {

/// A track of a Spotify playlist, with the fields the station reads.
#[derive(Debug)]
pub struct SpotifyTrack {
    pub name: String,
    pub album_name: String,
    pub album_release_date: String,
    pub artists: Vec<String>,
}

/// A Spotify track by the text of its fields.
pub struct SpotifyTrackView {
    pub name: Seq<char>,
    pub album_name: Seq<char>,
    pub album_release_date: Seq<char>,
    pub artists: Seq<Seq<char>>,
}

pub open spec fn strings_view(v: Seq<String>) -> Seq<Seq<char>> {
    v.map_values(|s: String| s@)
}

impl View for SpotifyTrack {
    type V = SpotifyTrackView;

    open spec fn view(&self) -> SpotifyTrackView {
        SpotifyTrackView {
            name: self.name@,
            album_name: self.album_name@,
            album_release_date: self.album_release_date@,
            artists: strings_view(self.artists@),
        }
    }
}

/// The tracks of a sequence by their views.
pub open spec fn tracks_view(v: Seq<SpotifyTrack>) -> Seq<SpotifyTrackView> {
    v.map_values(|t: SpotifyTrack| t@)
}

/// The pages of a playlist by the views of their tracks.
pub open spec fn pages_view(pages: Seq<Vec<SpotifyTrack>>) -> Seq<Seq<SpotifyTrackView>> {
    pages.map_values(|p: Vec<SpotifyTrack>| tracks_view(p@))
}

fn clone_strings(v: &Vec<String>) -> (c: Vec<String>)
    ensures
        c@ == v@,
{
    let mut c: Vec<String> = Vec::new();
    let mut i: usize = 0;
    while i < v.len()
        invariant
            i <= v@.len(),
            c@ == v@.subrange(0, i as int),
        decreases v@.len() - i,
    {
        c.push(v[i].clone());
        i = i + 1;
        assert(c@ =~= v@.subrange(0, i as int));
    }
    assert(c@ =~= v@);
    c
}

impl Clone for SpotifyTrack {
    fn clone(&self) -> (copy: Self)
        ensures
            copy@ == self@,
    {
        let artists = clone_strings(&self.artists);
        SpotifyTrack {
            name: self.name.clone(),
            album_name: self.album_name.clone(),
            album_release_date: self.album_release_date.clone(),
            artists,
        }
    }
}

pub const ARTIST_SEPARATOR: &'static str = ", ";
pub const PLAYLIST_TRACKS: &'static str = "https://api.spotify.com/v1/playlists/";
pub const PLAYLIST_TRACKS_TAIL: &'static str = "/tracks?limit=50";

/// `, a` for every artist `a`, in order.
pub open spec fn each_after_separator(artists: Seq<Seq<char>>) -> Seq<char>
    decreases artists.len(),
{
    if artists.len() == 0 {
        Seq::empty()
    } else {
        each_after_separator(artists.drop_last()) + ARTIST_SEPARATOR@ + artists.last()
    }
}

/// The artists of a track as one text: the last listed artist first, then the
/// others in their order, each after `, `.
pub open spec fn artists_text(artists: Seq<Seq<char>>) -> Seq<char> {
    artists.last() + each_after_separator(artists.drop_last())
}

pub fn join_artists(artists: &Vec<String>) -> (joined: String)
    requires
        artists@.len() > 0,
    ensures
        joined@ == artists_text(strings_view(artists@)),
{
    let ghost names = strings_view(artists@);
    let n = artists.len();
    let mut joined = artists[n - 1].clone();
    let mut i: usize = 0;
    while i < n - 1
        invariant
            n == artists@.len(),
            names == strings_view(artists@),
            n > 0,
            i <= n - 1,
            joined@ == names[n - 1] + each_after_separator(names.subrange(0, i as int)),
        decreases n - 1 - i,
    {
        joined.append(ARTIST_SEPARATOR);
        joined.append(artists[i].as_str());
        assert(names.subrange(0, i + 1).drop_last() =~= names.subrange(0, i as int));
        i = i + 1;
    }
    assert(names.subrange(0, n - 1) =~= names.drop_last());
    joined
}

/// `y` is the station's track for the Spotify track `t`.
pub open spec fn is_station_track(y: YoursFMTrack, t: SpotifyTrackView) -> bool {
    let artist = artists_text(t.artists);
    &&& y.id@ == uuid_v5_url_text(track_id_name(t.name, artist, t.album_name, t.album_release_date))
    &&& y.name@ == t.name
    &&& y.artist@ == artist
    &&& y.album_name@ == t.album_name
    &&& y.album_release_date@ == t.album_release_date
}

/// The station's track for a Spotify track that names at least one artist.
pub fn station_track(t: &SpotifyTrack) -> (y: YoursFMTrack)
    requires
        t.artists@.len() > 0,
    ensures
        is_station_track(y, t@),
{
    let artist = join_artists(&t.artists);
    let id = generate_track_id(t.name.clone(), artist.clone(), t.album_name.clone(), t.album_release_date.clone());
    YoursFMTrack {
        id,
        name: t.name.clone(),
        artist,
        album_name: t.album_name.clone(),
        album_release_date: t.album_release_date.clone(),
    }
}

/// The station's tracks for the tracks of a playlist, in order; every track
/// must name an artist.
pub fn yoursfm_tracks_from_spotify(tracks: &Vec<SpotifyTrack>) -> (out: Vec<YoursFMTrack>)
    requires
        forall|i: int| 0 <= i < tracks@.len() ==> (#[trigger] tracks@[i]).artists@.len() > 0,
    ensures
        out@.len() == tracks@.len(),
        forall|i: int| 0 <= i < tracks@.len() ==> is_station_track(#[trigger] out@[i], tracks@[i]@),
{
    let mut out: Vec<YoursFMTrack> = Vec::new();
    let mut i: usize = 0;
    while i < tracks.len()
        invariant
            i <= tracks@.len(),
            out@.len() == i,
            forall|q: int| 0 <= q < i ==> is_station_track(#[trigger] out@[q], tracks@[q]@),
            forall|q: int| 0 <= q < tracks@.len() ==> (#[trigger] tracks@[q]).artists@.len() > 0,
        decreases tracks@.len() - i,
    {
        out.push(station_track(&tracks[i]));
        i = i + 1;
    }
    out
}

/// All tracks of the pages, in order.
pub open spec fn concat_pages(pages: Seq<Seq<SpotifyTrackView>>) -> Seq<SpotifyTrackView>
    decreases pages.len(),
{
    if pages.len() == 0 {
        Seq::empty()
    } else {
        concat_pages(pages.drop_last()) + pages.last()
    }
}

/// What gathering a playlist page by page yields: each page's fetch returns
/// the tracks of all pages up to it followed by what the later fetches
/// return, so the listing is the tracks up to page 1, then up to page 2, and
/// so on up to the last page.
pub open spec fn playlist_listing(pages: Seq<Seq<SpotifyTrackView>>) -> Seq<SpotifyTrackView>
    decreases pages.len(),
{
    if pages.len() == 0 {
        Seq::empty()
    } else {
        playlist_listing(pages.drop_last()) + concat_pages(pages)
    }
}

fn append_copies(dst: &mut Vec<SpotifyTrack>, src: &Vec<SpotifyTrack>)
    ensures
        tracks_view(final(dst)@) == tracks_view(old(dst)@) + tracks_view(src@),
{
    let mut i: usize = 0;
    while i < src.len()
        invariant
            i <= src@.len(),
            tracks_view(dst@) == tracks_view(old(dst)@) + tracks_view(src@.subrange(0, i as int)),
        decreases src@.len() - i,
    {
        let ghost before = dst@;
        dst.push(src[i].clone());
        i = i + 1;
        assert(tracks_view(dst@) =~= tracks_view(before) + seq![src@[i - 1]@]);
        assert(tracks_view(dst@) =~= tracks_view(old(dst)@) + tracks_view(src@.subrange(0, i as int)));
    }
    assert(src@.subrange(0, i as int) =~= src@);
}

/// The tracks the playlist pages add up to, as the page-by-page gathering returns them.
pub fn playlist_tracks_from_pages(pages: &Vec<Vec<SpotifyTrack>>) -> (listing: Vec<SpotifyTrack>)
    ensures
        tracks_view(listing@) == playlist_listing(pages_view(pages@)),
{
    let ghost pv = pages_view(pages@);
    let mut so_far: Vec<SpotifyTrack> = Vec::new();
    let mut listing: Vec<SpotifyTrack> = Vec::new();
    let mut k: usize = 0;
    assert(tracks_view(so_far@) =~= concat_pages(pv.subrange(0, 0)));
    assert(tracks_view(listing@) =~= playlist_listing(pv.subrange(0, 0)));
    while k < pages.len()
        invariant
            k <= pages@.len(),
            pv == pages_view(pages@),
            tracks_view(so_far@) == concat_pages(pv.subrange(0, k as int)),
            tracks_view(listing@) == playlist_listing(pv.subrange(0, k as int)),
        decreases pages@.len() - k,
    {
        assert(pv.subrange(0, k + 1).drop_last() =~= pv.subrange(0, k as int));
        assert(pv.subrange(0, k + 1).last() == tracks_view(pages@[k as int]@));
        append_copies(&mut so_far, &pages[k]);
        append_copies(&mut listing, &so_far);
        k = k + 1;
    }
    assert(pv.subrange(0, k as int) =~= pv);
    listing
}

/// The first page of a playlist's tracks.
pub fn playlist_tracks_url(playlist_id: &str) -> (url: String)
    ensures
        url@ == PLAYLIST_TRACKS@ + playlist_id@ + PLAYLIST_TRACKS_TAIL@,
{
    let mut url = String::from_str(PLAYLIST_TRACKS);
    url.append(playlist_id);
    url.append(PLAYLIST_TRACKS_TAIL);
    url
}

} // verus!
