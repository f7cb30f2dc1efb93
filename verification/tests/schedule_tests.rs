use yoursfm::radio::{RadioSegment, YoursFMTrack};
use yoursfm::schedule::{
    draw_segment_rolls, SegmentPlanner, SegmentRolls, CLOSING_CALLOUT_BELOW, DETAILED_CALLOUT_BELOW, INTERLUDE_BELOW,
    MULTI_SONG_BELOW, NEWS_BELOW, OPENING_CALLOUT_BELOW, PLAIN_CALLOUT_BELOW, ROLL_RANGE, SHOW_BELOW,
    SONG_BLOCK_BELOW, TARGET_SEGMENTS, WEATHER_BELOW,
};

fn track(name: &str) -> YoursFMTrack {
    YoursFMTrack {
        id: format!("id-{}", name),
        name: name.to_string(),
        artist: "Artist".to_string(),
        album_name: "Album".to_string(),
        album_release_date: "2000".to_string(),
    }
}

fn pool(prefix: &str, n: usize) -> Vec<YoursFMTrack> {
    (0..n).map(|i| track(&format!("{}{}", prefix, i))).collect()
}

/// Rolls that pick nothing optional.
fn quiet(kind: u32) -> SegmentRolls {
    SegmentRolls {
        kind,
        multi_song: ROLL_RANGE - 1,
        block_len: 2,
        opening_callout: ROLL_RANGE - 1,
        opening_callout_kind: 0,
        interludes: [ROLL_RANGE - 1; 3],
        closing_callout: ROLL_RANGE - 1,
    }
}

fn kind_name(s: &RadioSegment) -> &'static str {
    match s {
        RadioSegment::NextSongCallout(_) => "next",
        RadioSegment::LastSongCallout(_) => "last",
        RadioSegment::RadioCallout(_) => "radio",
        RadioSegment::ShowIntroduction(_) => "intro",
        RadioSegment::NextSongCalloutDetailed(_) => "detailed",
        RadioSegment::NextSongCalloutHistory(_) => "history",
        RadioSegment::NewsReport(_) => "news",
        RadioSegment::WeatherReport(_) => "weather",
        RadioSegment::Song(_) => "song",
        RadioSegment::Show(_) => "show",
        RadioSegment::ShowClose(_) => "close",
    }
}

fn kinds(segs: &[RadioSegment]) -> Vec<&'static str> {
    segs.iter().map(kind_name).collect()
}

#[test]
fn thresholds_are_the_f32_probabilities_scaled_to_24_bits() {
    let scale = (1u32 << 24) as f32;
    for (bound, p) in [
        (SONG_BLOCK_BELOW, 0.75f32), (NEWS_BELOW, 0.85), (WEATHER_BELOW, 0.93), (SHOW_BELOW, 0.97),
        (MULTI_SONG_BELOW, 0.4), (OPENING_CALLOUT_BELOW, 0.55), (PLAIN_CALLOUT_BELOW, 0.6),
        (DETAILED_CALLOUT_BELOW, 0.8), (INTERLUDE_BELOW, 0.1), (CLOSING_CALLOUT_BELOW, 0.25),
    ] {
        assert!(((bound - 1) as f32) / scale < p, "bound {}", bound);
        assert!(!((bound as f32) / scale < p), "bound {}", bound);
    }
}

#[test]
fn plain_song_block_plays_one_song_from_the_back() {
    let mut p = SegmentPlanner::new(pool("s", 3), pool("show", 1));
    p.step(&quiet(0));
    let (segs, tracks, shows) = p.into_parts();
    assert_eq!(kinds(&segs), vec!["song"]);
    match &segs[0] {
        RadioSegment::Song(t) => assert_eq!(t.name, "s2"),
        _ => unreachable!(),
    }
    assert_eq!(tracks.len(), 2);
    assert_eq!(shows.len(), 1);
}

#[test]
fn full_song_block_with_every_callout() {
    let mut p = SegmentPlanner::new(pool("s", 5), Vec::new());
    let rolls = SegmentRolls {
        kind: 0,
        multi_song: 0,
        block_len: 3,
        opening_callout: 0,
        opening_callout_kind: DETAILED_CALLOUT_BELOW,
        interludes: [0, 0, 0],
        closing_callout: 0,
    };
    p.step(&rolls);
    let (segs, tracks, _) = p.into_parts();
    assert_eq!(kinds(&segs), vec!["history", "song", "radio", "song", "radio", "song", "last", "next"]);
    assert_eq!(tracks.len(), 2);
    match &segs[0] {
        RadioSegment::NextSongCalloutHistory(c) => {
            assert!(c.last_song.is_none());
            assert_eq!(c.next_song.as_ref().unwrap().name, "s4");
        }
        _ => unreachable!(),
    }
    match &segs[6] {
        RadioSegment::LastSongCallout(c) => {
            assert_eq!(c.last_song.as_ref().unwrap().name, "s2");
            assert_eq!(c.next_song.as_ref().unwrap().name, "s1");
        }
        _ => unreachable!(),
    }
}

#[test]
fn reports_do_not_repeat_back_to_back() {
    let mut p = SegmentPlanner::new(Vec::new(), Vec::new());
    p.step(&quiet(SONG_BLOCK_BELOW));
    p.step(&quiet(SONG_BLOCK_BELOW));
    p.step(&quiet(NEWS_BELOW));
    p.step(&quiet(NEWS_BELOW));
    p.step(&quiet(SHOW_BELOW));
    p.step(&quiet(SHOW_BELOW));
    p.step(&quiet(SONG_BLOCK_BELOW));
    let (segs, _, _) = p.into_parts();
    assert_eq!(kinds(&segs), vec!["news", "weather", "radio", "news"]);
}

#[test]
fn show_is_introduced_and_closed() {
    let mut p = SegmentPlanner::new(pool("s", 1), pool("show", 2));
    p.step(&quiet(WEATHER_BELOW));
    let (segs, tracks, shows) = p.into_parts();
    assert_eq!(kinds(&segs), vec!["intro", "show", "close"]);
    match (&segs[0], &segs[1], &segs[2]) {
        (RadioSegment::ShowIntroduction(i), RadioSegment::Show(s), RadioSegment::ShowClose(c)) => {
            assert_eq!(i.next_song.as_ref().unwrap().name, "show1");
            assert_eq!(s.name, "show1");
            assert_eq!(c.next_song.as_ref().unwrap().name, "s0");
        }
        _ => unreachable!(),
    }
    assert_eq!(tracks.len(), 1);
    assert_eq!(shows.len(), 1);
}

#[test]
fn show_round_without_shows_only_introduces() {
    let mut p = SegmentPlanner::new(Vec::new(), Vec::new());
    p.step(&quiet(WEATHER_BELOW));
    let (segs, _, _) = p.into_parts();
    assert_eq!(kinds(&segs), vec!["intro"]);
}

fn check_schedule(segs: &[RadioSegment], initial_tracks: &[YoursFMTrack], tracks: &[YoursFMTrack], initial_shows: &[YoursFMTrack], shows: &[YoursFMTrack]) {
    assert!(segs.len() == TARGET_SEGMENTS || segs.len() == TARGET_SEGMENTS + 1);
    for k in 0..segs.len() {
        let a = kind_name(&segs[k]);
        if k + 1 < segs.len() {
            let b = kind_name(&segs[k + 1]);
            assert!(!(a == b && (a == "news" || a == "weather" || a == "radio")), "repeat at {}", k);
            if a == "last" {
                assert_eq!(b, "next");
            }
            if a == "show" {
                assert_eq!(b, "close");
            }
        }
        if a == "show" {
            assert_eq!(kind_name(&segs[k - 1]), "intro");
        }
    }
    // songs and shows leave their pools from the back
    let played: Vec<&str> = segs.iter().filter_map(|s| match s { RadioSegment::Song(t) => Some(t.name.as_str()), _ => None }).collect();
    let mut rebuilt: Vec<&str> = tracks.iter().map(|t| t.name.as_str()).collect();
    rebuilt.extend(played.iter().rev());
    assert_eq!(rebuilt, initial_tracks.iter().map(|t| t.name.as_str()).collect::<Vec<_>>());
    let played_shows: Vec<&str> = segs.iter().filter_map(|s| match s { RadioSegment::Show(t) => Some(t.name.as_str()), _ => None }).collect();
    let mut rebuilt: Vec<&str> = shows.iter().map(|t| t.name.as_str()).collect();
    rebuilt.extend(played_shows.iter().rev());
    assert_eq!(rebuilt, initial_shows.iter().map(|t| t.name.as_str()).collect::<Vec<_>>());
    // every callout's context is what actually happened around it
    for k in 0..segs.len() {
        let c = match &segs[k] {
            RadioSegment::Song(_) | RadioSegment::Show(_) => continue,
            RadioSegment::NextSongCallout(c) | RadioSegment::LastSongCallout(c) | RadioSegment::RadioCallout(c)
            | RadioSegment::ShowIntroduction(c) | RadioSegment::NextSongCalloutDetailed(c)
            | RadioSegment::NextSongCalloutHistory(c) | RadioSegment::NewsReport(c) | RadioSegment::WeatherReport(c)
            | RadioSegment::ShowClose(c) => c,
        };
        let previous = segs[..k].iter().rev().find_map(|s| match s { RadioSegment::Song(t) => Some(t.name.clone()), _ => None });
        assert_eq!(c.last_song.as_ref().map(|t| t.name.clone()), previous);
        let intro = matches!(segs[k], RadioSegment::ShowIntroduction(_));
        let later = segs[k + 1..].iter().find_map(|s| match (s, intro) {
            (RadioSegment::Song(t), false) | (RadioSegment::Show(t), true) => Some(t.name.clone()),
            _ => None,
        });
        let upcoming = later.or_else(|| if intro { shows.last() } else { tracks.last() }.map(|t| t.name.clone()));
        assert_eq!(c.next_song.as_ref().map(|t| t.name.clone()), upcoming, "context at {}", k);
    }
}

#[test]
fn random_schedules_keep_the_laws() {
    for round in 0..200 {
        let songs = pool("s", 3 + round % 40);
        let shows = pool("show", round % 4);
        let mut p = SegmentPlanner::new(songs.clone(), shows.clone());
        while !p.is_complete() {
            let r = draw_segment_rolls();
            assert!(r.kind < ROLL_RANGE && (2..=4).contains(&r.block_len));
            p.step(&r);
        }
        let (segs, tracks, rest_shows) = p.into_parts();
        check_schedule(&segs, &songs, &tracks, &shows, &rest_shows);
    }
}
