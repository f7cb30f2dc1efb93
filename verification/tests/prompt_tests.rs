use yoursfm::audio::llm::{bearer_authorization, build_prompt, callout_text_from_choices, prompt_metadata_track};
use yoursfm::audio::metadata::TrackMetadata;
use yoursfm::radio::{CalloutContext, RadioSegment, StationConfiguration, YoursFMTrack};

fn station() -> StationConfiguration {
    StationConfiguration {
        code: "TVAN".to_string(),
        name: "Talon's Radio".to_string(),
        frequency: "840".to_string(),
        channel: "AM".to_string(),
    }
}

fn track(name: &str, artist: &str) -> YoursFMTrack {
    YoursFMTrack {
        id: "id".to_string(),
        name: name.to_string(),
        artist: artist.to_string(),
        album_name: "Album".to_string(),
        album_release_date: "1970".to_string(),
    }
}

fn none() -> TrackMetadata {
    TrackMetadata { release_year: None, wiki_summary: None, wiki_content: None }
}

fn ctx(last: Option<YoursFMTrack>, next: Option<YoursFMTrack>) -> CalloutContext {
    CalloutContext { last_song: last, next_song: next }
}

const FULL: &str = "Talon's Radio, TVAN-AM 840";
const ID: &str = "TVAN-AM 840";

#[test]
fn next_song_prompt_names_title_and_artist() {
    let seg = RadioSegment::NextSongCallout(ctx(None, Some(track("Travellin' Band", "CCR"))));
    let p = build_prompt(&seg, &station(), &none()).unwrap();
    assert_eq!(p, format!(
        "You're a DJ on {}. Briefly introduce the next song: '{}' by {}. \
        Keep it under 8 words, succinct and direct. Just the track and artist - NO additional details. \
        Avoid unnecessary filler like 'coming up', 'next up', 'now' - be more succinct. \
        Good examples: 'Next, CCR - Travellin' Band' or 'CCR, Travellin' Band'. Less is more. \
        IMPORTANT: Use the EXACT song title '{}' - do not shorten or change it. \
        You may abbreviate artist names ONLY if commonly done (e.g., 'CCR' for Creedence Clearwater Revival).",
        FULL, "Travellin' Band", "CCR", "Travellin' Band"));
    let seg = RadioSegment::NextSongCallout(ctx(None, None));
    assert_eq!(build_prompt(&seg, &station(), &none()).unwrap(),
        format!("You're a DJ on {}. Give a brief 10 word station callout.", ID));
}

#[test]
fn last_song_prompt_uses_identifier() {
    let seg = RadioSegment::LastSongCallout(ctx(Some(track("Light My Fire", "The Doors")), None));
    assert_eq!(build_prompt(&seg, &station(), &none()).unwrap(), format!(
        "You're a DJ on {}. Mention the song that just played: '{}' by {}. \
        Keep it under 10 words, succinct and direct. Focus ONLY on the last song. \
        Avoid unnecessary filler like 'just played', 'thanks', 'enjoy' - be more succinct. \
        Good examples: 'That was The Doors Light My Fire' or 'The Doors, Light My Fire'. Less is more. \
        IMPORTANT: Use the EXACT song title '{}' - do not shorten or change it. \
        You may abbreviate artist names ONLY if commonly done (e.g., 'CCR' for Creedence Clearwater Revival).",
        ID, "Light My Fire", "The Doors", "Light My Fire"));
    let seg = RadioSegment::LastSongCallout(ctx(None, None));
    assert_eq!(build_prompt(&seg, &station(), &none()).unwrap(),
        format!("You're a DJ on {}. Give a brief 10 word callout.", ID));
}

fn radio_expected(info: &str) -> String {
    format!(
        "You're a DJ on {}. {} Give a succinct station identification callout. \
        Keep it under 12 words. Avoid unnecessary filler like 'just played', 'coming up', 'thanks' - be direct and succinct. \
        Good example with both songs: 'That was The Doors Light My Fire, Next up CCR' or 'The Doors, Light My Fire, next we've got CCR - Travellin' Band'. \
        Less is more.",
        FULL, info)
}

#[test]
fn radio_callout_prompt_mentions_neighbouring_songs() {
    let a = track("A", "x");
    let b = track("B", "y");
    let cases = [
        (ctx(Some(a.clone()), Some(b.clone())), "Last song: 'A'. Next song: 'B'."),
        (ctx(Some(a.clone()), None), "Last song: 'A'."),
        (ctx(None, Some(b.clone())), "Next song: 'B'."),
        (ctx(None, None), ""),
    ];
    for (c, info) in cases {
        let p = build_prompt(&RadioSegment::RadioCallout(c), &station(), &none()).unwrap();
        assert_eq!(p, radio_expected(info));
    }
}

fn detailed_expected(facts: &str) -> String {
    format!(
        "You're a DJ on {}. Introduce the next song '{}' by {} with ONE brief interesting tidbit. \
        Keep it under 18 words, succinct and informative. Avoid filler like 'coming up', 'next up' - be direct. \
        IMPORTANT: Use the EXACT song title '{}' - do not change it. \
        You may abbreviate artist names ONLY if commonly done. \
        CRITICAL: Base your tidbit ONLY on the following factual information - DO NOT use any other knowledge: \
        {}",
        FULL, "Halo", "Beyoncé", "Halo", facts)
}

#[test]
fn detailed_prompt_needs_some_fact() {
    let seg = RadioSegment::NextSongCalloutDetailed(ctx(None, Some(track("Halo", "Beyoncé"))));
    assert_eq!(prompt_metadata_track(&seg).unwrap().name, "Halo");
    let both = TrackMetadata { release_year: Some(2008), wiki_summary: Some("A hit.".into()), wiki_content: None };
    assert_eq!(build_prompt(&seg, &station(), &both).unwrap(), detailed_expected("Release year: 2008. Context: A hit."));
    let year = TrackMetadata { release_year: Some(2008), wiki_summary: None, wiki_content: Some("x".into()) };
    assert_eq!(build_prompt(&seg, &station(), &year).unwrap(), detailed_expected("Release year: 2008"));
    let wiki = TrackMetadata { release_year: None, wiki_summary: Some("A hit.".into()), wiki_content: None };
    assert_eq!(build_prompt(&seg, &station(), &wiki).unwrap(), detailed_expected("Context: A hit."));
    assert_eq!(build_prompt(&seg, &station(), &none()), Err(
        "No metadata available for 'Halo' by Beyoncé - cannot generate detailed callout without factual context".to_string()));
    let seg = RadioSegment::NextSongCalloutDetailed(ctx(None, None));
    assert!(prompt_metadata_track(&seg).is_none());
    assert_eq!(build_prompt(&seg, &station(), &none()).unwrap(), format!("You're a DJ on {}. Give a 10 word callout.", FULL));
}

fn history_expected(facts: &str) -> String {
    format!(
        "You're a DJ on {}. Introduce the next song '{}' by {} and share a bit about its significant history or cultural impact. \
        Keep it under 22 words, succinct and informative. Tell a brief story about the track's legacy. Avoid filler - be direct. \
        IMPORTANT: Use the EXACT song title '{}' - do not change it. \
        You may abbreviate artist names ONLY if commonly done. \
        CRITICAL: Base your story ONLY on the following factual historical information - DO NOT use any other knowledge or make up facts: \
        {}",
        FULL, "Halo", "Beyoncé", "Halo", facts)
}

#[test]
fn history_prompt_needs_wiki_text() {
    let seg = RadioSegment::NextSongCalloutHistory(ctx(None, Some(track("Halo", "Beyoncé"))));
    let full = TrackMetadata { release_year: Some(2008), wiki_summary: Some("short".into()), wiki_content: Some("long".into()) };
    assert_eq!(build_prompt(&seg, &station(), &full).unwrap(), history_expected("Release year: 2008. Historical context: long"));
    let summary = TrackMetadata { release_year: None, wiki_summary: Some("short".into()), wiki_content: None };
    assert_eq!(build_prompt(&seg, &station(), &summary).unwrap(), history_expected("Historical context: short"));
    let year = TrackMetadata { release_year: Some(2008), wiki_summary: None, wiki_content: None };
    assert_eq!(build_prompt(&seg, &station(), &year), Err(
        "Insufficient historical context for 'Halo' by Beyoncé - only have release year (2008) but no cultural/historical information".to_string()));
    assert_eq!(build_prompt(&seg, &station(), &none()), Err(
        "No historical metadata available for 'Halo' by Beyoncé - cannot generate history callout without factual context".to_string()));
}

#[test]
fn report_and_show_prompts() {
    let c = || ctx(None, None);
    assert_eq!(build_prompt(&RadioSegment::NewsReport(c()), &station(), &none()).unwrap(), format!(
        "You're a radio DJ on {}. Give a brief 6-8 word transition to news. Be succinct. Avoid filler like 'and now', 'coming up' - be direct.", FULL));
    assert_eq!(build_prompt(&RadioSegment::WeatherReport(c()), &station(), &none()).unwrap(), format!(
        "You're a radio DJ on {}. Give a brief 6-8 word transition to weather. Be succinct. Avoid filler like 'and now', 'coming up' - be direct.", FULL));
    assert_eq!(build_prompt(&RadioSegment::ShowClose(c()), &station(), &none()).unwrap(), format!(
        "You're a radio DJ on {}. Thank listeners for that show in 6-8 words. Be succinct and warm. Avoid filler - be direct.", FULL));
    let intro = RadioSegment::ShowIntroduction(ctx(None, Some(track("Jazz Hour", "Host"))));
    assert_eq!(build_prompt(&intro, &station(), &none()).unwrap(), format!(
        "You're a DJ on {}. Introduce special show: '{}'. Build anticipation in 12-15 words, exciting and succinct. Avoid filler - be direct.",
        FULL, "Jazz Hour"));
    assert_eq!(build_prompt(&RadioSegment::ShowIntroduction(c()), &station(), &none()).unwrap(), format!(
        "You're a DJ on {}. Introduce an upcoming special show in 10-12 words. Be succinct.", FULL));
    assert_eq!(build_prompt(&RadioSegment::Song(track("a", "b")), &station(), &none()).unwrap(), format!(
        "You're a radio DJ on {}. Give a 4-6 word station identification. Be succinct.", ID));
}

#[test]
fn callout_text_is_first_choice_trimmed() {
    assert_eq!(callout_text_from_choices(&vec!["  Next up, CCR!\n".to_string(), "other".to_string()]), Ok("Next up, CCR!".to_string()));
    assert_eq!(callout_text_from_choices(&Vec::new()), Err("No response from LLM".to_string()));
    assert_eq!(bearer_authorization("abc"), "Bearer abc");
}

#[test]
fn metadata_matters_only_for_its_subject() {
    let rich = TrackMetadata { release_year: Some(1999), wiki_summary: Some("s".into()), wiki_content: Some("c".into()) };
    let seg = RadioSegment::NextSongCallout(ctx(Some(track("a", "b")), Some(track("c", "d"))));
    assert!(prompt_metadata_track(&seg).is_none());
    assert_eq!(build_prompt(&seg, &station(), &rich), build_prompt(&seg, &station(), &none()));
    let seg = RadioSegment::NextSongCalloutHistory(ctx(None, None));
    assert_eq!(build_prompt(&seg, &station(), &rich), build_prompt(&seg, &station(), &none()));
}
