use yoursfm::control::{
    database_url, initial_cache_minimum, initial_wait_step, next_pre_cache_action, pre_cache_threshold,
    verbosity_from_count, LogVerbosity, PreCacheAction,
};
use yoursfm::radio::{generate_track_id, peek_next_song, CalloutContext, RadioSegment, StationConfiguration, YoursFMTrack};
use std::collections::VecDeque;

fn station() -> StationConfiguration {
    StationConfiguration {
        code: "TVAN".to_string(),
        name: "Talon's Radio".to_string(),
        frequency: "840".to_string(),
        channel: "AM".to_string(),
    }
}

fn track(name: &str) -> YoursFMTrack {
    YoursFMTrack {
        id: format!("id-{}", name),
        name: name.to_string(),
        artist: "Artist".to_string(),
        album_name: "Album".to_string(),
        album_release_date: "2000-01-01".to_string(),
    }
}

#[test]
fn station_identifier_is_code_channel_frequency() {
    assert_eq!(station().identifier(), "TVAN-AM 840");
}

#[test]
fn station_full_name_is_name_then_identifier() {
    assert_eq!(station().full_name(), "Talon's Radio, TVAN-AM 840");
}

#[test]
fn track_id_is_url_namespace_v5_uuid() {
    let id = generate_track_id(
        "Travelin' Band".to_string(),
        "Creedence Clearwater Revival".to_string(),
        "Cosmo's Factory".to_string(),
        "1970-07-16".to_string(),
    );
    assert_eq!(id, "6dbd0c1c-9e28-5bc8-824b-fd7212d4a675");
}

#[test]
fn track_id_is_stable_and_depends_on_every_field() {
    let a = generate_track_id("a".into(), "b".into(), "c".into(), "d".into());
    let b = generate_track_id("a".into(), "b".into(), "c".into(), "d".into());
    let c = generate_track_id("a".into(), "b".into(), "c".into(), "e".into());
    assert_eq!(a, b);
    assert_ne!(a, c);
    assert_eq!(a.len(), 36);
    assert_eq!(&a[14..15], "5");
}

#[test]
fn peek_next_song_gives_last_of_pool_without_removing() {
    let pool = vec![track("one"), track("two")];
    let next = peek_next_song(&pool).unwrap();
    assert_eq!(next.name, "two");
    assert_eq!(pool.len(), 2);
    assert!(peek_next_song(&Vec::new()).is_none());
}

#[test]
fn segments_clone_keeps_everything() {
    let seg = RadioSegment::NextSongCallout(CalloutContext { last_song: Some(track("a")), next_song: None });
    match seg.clone() {
        RadioSegment::NextSongCallout(c) => {
            assert_eq!(c.last_song.unwrap().name, "a");
            assert!(c.next_song.is_none());
        }
        _ => panic!("variant changed"),
    }
}

#[test]
fn verbosity_counts_up_to_three() {
    assert_eq!(verbosity_from_count(0), LogVerbosity::OFF);
    assert_eq!(verbosity_from_count(1), LogVerbosity::MINIMAL);
    assert_eq!(verbosity_from_count(2), LogVerbosity::INCREASED);
    assert_eq!(verbosity_from_count(3), LogVerbosity::FULL);
    assert_eq!(verbosity_from_count(4), LogVerbosity::OFF);
}

#[test]
fn cache_thresholds_depend_on_callouts_only() {
    assert_eq!(pre_cache_threshold(true), 3);
    assert_eq!(pre_cache_threshold(false), 5);
    assert_eq!(initial_cache_minimum(true), 1);
    assert_eq!(initial_cache_minimum(false), 2);
}

#[test]
fn database_url_uses_sqlite_scheme() {
    assert_eq!(database_url("./radio.db"), "sqlite://./radio.db");
}

#[test]
fn pre_cache_takes_from_front_only_below_threshold() {
    let mut schedule: VecDeque<RadioSegment> = VecDeque::new();
    schedule.push_back(RadioSegment::Song(track("first")));
    schedule.push_back(RadioSegment::Song(track("second")));
    match next_pre_cache_action(5, 5, &mut schedule) {
        PreCacheAction::Wait => {}
        other => panic!("expected Wait, got {:?}", other),
    }
    assert_eq!(schedule.len(), 2);
    match next_pre_cache_action(4, 5, &mut schedule) {
        PreCacheAction::Cache(RadioSegment::Song(t)) => assert_eq!(t.name, "first"),
        other => panic!("expected the first song, got {:?}", other),
    }
    assert_eq!(schedule.len(), 1);
    let _ = next_pre_cache_action(0, 5, &mut schedule);
    match next_pre_cache_action(0, 5, &mut schedule) {
        PreCacheAction::Exhausted => {}
        other => panic!("expected Exhausted, got {:?}", other),
    }
}

#[test]
fn initial_wait_reports_every_tenth_and_gives_up_after_sixty() {
    let s = initial_wait_step(9);
    assert_eq!(s.iterations, 10);
    assert!(s.report);
    assert!(!s.give_up);
    let s = initial_wait_step(10);
    assert!(!s.report);
    let s = initial_wait_step(60);
    assert_eq!(s.iterations, 61);
    assert!(s.give_up);
}
