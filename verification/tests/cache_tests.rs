use yoursfm::audio::cache::{admit_for_caching, audio_source, AudioSource, CacheQueue};
use yoursfm::audio::fetcher::{new_audio_file_names, youtube_search_query, youtube_search_target};
use yoursfm::audio::stream::{bytes_per_second, check_cached_file, CachedFileCheck, ChunkPacer, CHUNK_DELAY_MICROS};
use yoursfm::audio::tts::speech_request_url;
use yoursfm::audio::{AudioConfig, AudioFormat};
use yoursfm::radio::{CalloutContext, RadioSegment, YoursFMTrack};

fn track(name: &str) -> YoursFMTrack {
    YoursFMTrack {
        id: "id".to_string(),
        name: name.to_string(),
        artist: "The Doors".to_string(),
        album_name: "The Doors".to_string(),
        album_release_date: "1967".to_string(),
    }
}

#[test]
fn queue_is_first_in_first_out() {
    let mut q: CacheQueue<u32> = CacheQueue::new(10);
    assert!(q.push_evicting(1).is_empty());
    assert!(q.push_evicting(2).is_empty());
    assert_eq!(q.cached_count(), 2);
    assert_eq!(q.pop_next(), Some(1));
    assert_eq!(q.pop_next(), Some(2));
    assert_eq!(q.pop_next(), None);
}

#[test]
fn queue_evicts_oldest_beyond_capacity() {
    let mut q: CacheQueue<u32> = CacheQueue::new(2);
    q.push_evicting(1);
    q.push_evicting(2);
    assert_eq!(q.push_evicting(3), vec![1]);
    assert_eq!(q.cached_count(), 2);
    assert_eq!(q.drain_all(), vec![2, 3]);
    assert_eq!(q.cached_count(), 0);
}

#[test]
fn queue_of_capacity_zero_keeps_nothing() {
    let mut q: CacheQueue<u32> = CacheQueue::new(0);
    assert_eq!(q.push_evicting(7), vec![7]);
    assert_eq!(q.cached_count(), 0);
}

#[test]
fn callouts_only_refuses_songs_and_shows() {
    let song = RadioSegment::Song(track("Light My Fire"));
    let show = RadioSegment::Show(track("Jazz Hour"));
    let news = RadioSegment::NewsReport(CalloutContext { last_song: None, next_song: None });
    assert_eq!(admit_for_caching(true, &song), Err("Skipping song in callouts-only mode".to_string()));
    assert_eq!(admit_for_caching(true, &show), Err("Skipping show in callouts-only mode".to_string()));
    assert_eq!(admit_for_caching(true, &news), Ok(()));
    assert_eq!(admit_for_caching(false, &song), Ok(()));
}

#[test]
fn tracks_are_recordings_and_callouts_are_speech() {
    match audio_source(&RadioSegment::Show(track("Jazz Hour"))) {
        AudioSource::Recording { track_name, artist, album_name } => {
            assert_eq!(track_name, "Jazz Hour");
            assert_eq!(artist, "The Doors");
            assert_eq!(album_name, "The Doors");
        }
        AudioSource::Speech => panic!("a show is a recording"),
    }
    let c = RadioSegment::ShowClose(CalloutContext { last_song: None, next_song: None });
    assert!(matches!(audio_source(&c), AudioSource::Speech));
}

#[test]
fn search_query_and_target() {
    let q = youtube_search_query("Light My Fire", "The Doors", "The Doors");
    assert_eq!(q, "Light My Fire - The Doors - The Doors");
    assert_eq!(youtube_search_target(&q), "ytsearch1:Light My Fire - The Doors - The Doors");
}

#[test]
fn file_names_share_a_fresh_v4_id() {
    let a = new_audio_file_names();
    let b = new_audio_file_names();
    assert_ne!(a.id, b.id);
    assert_eq!(a.audio, format!("{}.mp3", a.id));
    assert_eq!(a.temp, format!("{}_temp.mp3", a.id));
    assert_eq!(a.id.len(), 36);
    assert_eq!(&a.id[14..15], "4");
}

#[test]
fn speech_url_names_voice_and_format() {
    assert_eq!(
        speech_request_url("voice123"),
        "https://api.elevenlabs.io/v1/text-to-speech/voice123?output_format=mp3_44100_128"
    );
}

#[test]
fn audio_config_default_is_192k_stereo_mp3() {
    let c = AudioConfig::default();
    assert_eq!(c.sample_rate, 44100);
    assert_eq!(c.bit_rate, 192000);
    assert_eq!(c.channels, 2);
    assert_eq!(c.format, AudioFormat::Mp3);
}

#[test]
fn pacer_keeps_a_fixed_schedule() {
    assert_eq!(bytes_per_second(), 24000);
    let mut p = ChunkPacer::new(CHUNK_DELAY_MICROS);
    assert_eq!(p.wait_before_send(0), 0);
    assert!(!p.record_send(true));
    assert_eq!(p.wait_before_send(100_000), CHUNK_DELAY_MICROS - 100_000);
    assert_eq!(p.wait_before_send(400_000), 0);
    let mut reports = 0;
    for i in 1..200 {
        if p.record_send(i % 2 == 0) {
            reports += 1;
        }
    }
    assert_eq!(p.chunks_sent(), 100);
    assert_eq!(reports, 1);
    assert_eq!(p.wait_before_send(0), 200 * CHUNK_DELAY_MICROS);
}

#[test]
fn cached_file_check_by_size() {
    assert_eq!(check_cached_file(None), CachedFileCheck::Missing);
    assert_eq!(check_cached_file(Some(0)), CachedFileCheck::Empty);
    assert_eq!(check_cached_file(Some(4096)), CachedFileCheck::Ready);
}
