//! Prompts for the language model that writes what the DJ says, and what is
//! kept of its answer.
use vstd::prelude::*;
use vstd::string::*;

use crate::audio::metadata::TrackMetadata;
use crate::radio::{station_identifier, CalloutContext, RadioSegment, StationConfiguration, YoursFMTrack};
use crate::text::{decimal, trim, trimmed, u32_to_decimal};

verus! {

pub const DJ_ON: &'static str = "You're a DJ on ";
pub const RADIO_DJ_ON: &'static str = "You're a radio DJ on ";
pub const BY: &'static str = "' by ";
pub const NEXT_SONG_INTRO: &'static str = ". Briefly introduce the next song: '";
pub const NEXT_SONG_RULES: &'static str = ". Keep it under 8 words, succinct and direct. Just the track and artist - NO additional details. Avoid unnecessary filler like 'coming up', 'next up', 'now' - be more succinct. Good examples: 'Next, CCR - Travellin' Band' or 'CCR, Travellin' Band'. Less is more. IMPORTANT: Use the EXACT song title '";
pub const EXACT_TITLE_TAIL: &'static str = "' - do not shorten or change it. You may abbreviate artist names ONLY if commonly done (e.g., 'CCR' for Creedence Clearwater Revival).";
pub const STATION_CALLOUT_FALLBACK: &'static str = ". Give a brief 10 word station callout.";
pub const LAST_SONG_INTRO: &'static str = ". Mention the song that just played: '";
pub const LAST_SONG_RULES: &'static str = ". Keep it under 10 words, succinct and direct. Focus ONLY on the last song. Avoid unnecessary filler like 'just played', 'thanks', 'enjoy' - be more succinct. Good examples: 'That was The Doors Light My Fire' or 'The Doors, Light My Fire'. Less is more. IMPORTANT: Use the EXACT song title '";
pub const CALLOUT_FALLBACK: &'static str = ". Give a brief 10 word callout.";
pub const LAST_SONG_INFO: &'static str = "Last song: '";
pub const NEXT_SONG_INFO_AFTER_LAST: &'static str = "'. Next song: '";
pub const NEXT_SONG_INFO: &'static str = "Next song: '";
pub const INFO_END: &'static str = "'.";
pub const SENTENCE_BREAK: &'static str = ". ";
pub const RADIO_CALLOUT_RULES: &'static str = " Give a succinct station identification callout. Keep it under 12 words. Avoid unnecessary filler like 'just played', 'coming up', 'thanks' - be direct and succinct. Good example with both songs: 'That was The Doors Light My Fire, Next up CCR' or 'The Doors, Light My Fire, next we've got CCR - Travellin' Band'. Less is more.";
pub const RELEASE_YEAR: &'static str = "Release year: ";
pub const CONTEXT_AFTER_YEAR: &'static str = ". Context: ";
pub const CONTEXT: &'static str = "Context: ";
pub const NO_METADATA: &'static str = "No metadata available for '";
pub const NO_METADATA_TAIL: &'static str = " - cannot generate detailed callout without factual context";
pub const INTRODUCE_NEXT: &'static str = ". Introduce the next song '";
pub const DETAILED_RULES: &'static str = " with ONE brief interesting tidbit. Keep it under 18 words, succinct and informative. Avoid filler like 'coming up', 'next up' - be direct. IMPORTANT: Use the EXACT song title '";
pub const DETAILED_TAIL: &'static str = "' - do not change it. You may abbreviate artist names ONLY if commonly done. CRITICAL: Base your tidbit ONLY on the following factual information - DO NOT use any other knowledge: ";
pub const SHORT_CALLOUT_FALLBACK: &'static str = ". Give a 10 word callout.";
pub const HISTORICAL_CONTEXT: &'static str = "Historical context: ";
pub const ONLY_YEAR: &'static str = "Insufficient historical context for '";
pub const ONLY_YEAR_MIDDLE: &'static str = " - only have release year (";
pub const ONLY_YEAR_TAIL: &'static str = ") but no cultural/historical information";
pub const NO_HISTORY: &'static str = "No historical metadata available for '";
pub const NO_HISTORY_TAIL: &'static str = " - cannot generate history callout without factual context";
pub const HISTORY_RULES: &'static str = " and share a bit about its significant history or cultural impact. Keep it under 22 words, succinct and informative. Tell a brief story about the track's legacy. Avoid filler - be direct. IMPORTANT: Use the EXACT song title '";
pub const HISTORY_TAIL: &'static str = "' - do not change it. You may abbreviate artist names ONLY if commonly done. CRITICAL: Base your story ONLY on the following factual historical information - DO NOT use any other knowledge or make up facts: ";
pub const SHOW_INTRO: &'static str = ". Introduce special show: '";
pub const SHOW_INTRO_RULES: &'static str = "'. Build anticipation in 12-15 words, exciting and succinct. Avoid filler - be direct.";
pub const SHOW_INTRO_FALLBACK: &'static str = ". Introduce an upcoming special show in 10-12 words. Be succinct.";
pub const NEWS_TRANSITION: &'static str = ". Give a brief 6-8 word transition to news. Be succinct. Avoid filler like 'and now', 'coming up' - be direct.";
pub const WEATHER_TRANSITION: &'static str = ". Give a brief 6-8 word transition to weather. Be succinct. Avoid filler like 'and now', 'coming up' - be direct.";
pub const SHOW_THANKS: &'static str = ". Thank listeners for that show in 6-8 words. Be succinct and warm. Avoid filler - be direct.";
pub const STATION_IDENTIFICATION: &'static str = ". Give a 4-6 word station identification. Be succinct.";
pub const NO_RESPONSE: &'static str = "No response from LLM";
pub const BEARER: &'static str = "Bearer ";

/// Prompt for a plain next-song callout.
pub open spec fn next_song_text(ctx: CalloutContext, station_id: Seq<char>, station_full: Seq<char>) -> Seq<char> {
    match ctx.next_song {
        Some(next) => DJ_ON@ + station_full + NEXT_SONG_INTRO@ + next.name@ + BY@ + next.artist@
            + NEXT_SONG_RULES@ + next.name@ + EXACT_TITLE_TAIL@,
        None => DJ_ON@ + station_id + STATION_CALLOUT_FALLBACK@,
    }
}

pub fn next_song_prompt(ctx: &CalloutContext, station_id: &str, station_full: &str) -> (p: String)
    ensures
        p@ == next_song_text(*ctx, station_id@, station_full@),
{
    let mut p = String::from_str(DJ_ON);
    match &ctx.next_song {
        Some(next) => {
            p.append(station_full);
            p.append(NEXT_SONG_INTRO);
            p.append(next.name.as_str());
            p.append(BY);
            p.append(next.artist.as_str());
            p.append(NEXT_SONG_RULES);
            p.append(next.name.as_str());
            p.append(EXACT_TITLE_TAIL);
        },
        None => {
            p.append(station_id);
            p.append(STATION_CALLOUT_FALLBACK);
        },
    }
    p
}

/// Prompt for a last-song callout.
pub open spec fn last_song_text(ctx: CalloutContext, station_id: Seq<char>) -> Seq<char> {
    match ctx.last_song {
        Some(last) => DJ_ON@ + station_id + LAST_SONG_INTRO@ + last.name@ + BY@ + last.artist@
            + LAST_SONG_RULES@ + last.name@ + EXACT_TITLE_TAIL@,
        None => DJ_ON@ + station_id + CALLOUT_FALLBACK@,
    }
}

pub fn last_song_prompt(ctx: &CalloutContext, station_id: &str, _station_full: &str) -> (p: String)
    ensures
        p@ == last_song_text(*ctx, station_id@),
{
    let mut p = String::from_str(DJ_ON);
    p.append(station_id);
    match &ctx.last_song {
        Some(last) => {
            p.append(LAST_SONG_INTRO);
            p.append(last.name.as_str());
            p.append(BY);
            p.append(last.artist.as_str());
            p.append(LAST_SONG_RULES);
            p.append(last.name.as_str());
            p.append(EXACT_TITLE_TAIL);
        },
        None => {
            p.append(CALLOUT_FALLBACK);
        },
    }
    p
}

/// What a station callout is told about the songs around it.
pub open spec fn songs_info(ctx: CalloutContext) -> Seq<char> {
    match (ctx.last_song, ctx.next_song) {
        (Some(last), Some(next)) => LAST_SONG_INFO@ + last.name@ + NEXT_SONG_INFO_AFTER_LAST@ + next.name@ + INFO_END@,
        (Some(last), None) => LAST_SONG_INFO@ + last.name@ + INFO_END@,
        (None, Some(next)) => NEXT_SONG_INFO@ + next.name@ + INFO_END@,
        (None, None) => Seq::empty(),
    }
}

/// Prompt for a station identification callout.
pub open spec fn radio_callout_text(ctx: CalloutContext, station_full: Seq<char>) -> Seq<char> {
    DJ_ON@ + station_full + SENTENCE_BREAK@ + songs_info(ctx) + RADIO_CALLOUT_RULES@
}

pub fn radio_callout_prompt(ctx: &CalloutContext, _station_id: &str, station_full: &str) -> (p: String)
    ensures
        p@ == radio_callout_text(*ctx, station_full@),
{
    let mut p = String::from_str(DJ_ON);
    p.append(station_full);
    p.append(SENTENCE_BREAK);
    match (&ctx.last_song, &ctx.next_song) {
        (Some(last), Some(next)) => {
            p.append(LAST_SONG_INFO);
            p.append(last.name.as_str());
            p.append(NEXT_SONG_INFO_AFTER_LAST);
            p.append(next.name.as_str());
            p.append(INFO_END);
        },
        (Some(last), None) => {
            p.append(LAST_SONG_INFO);
            p.append(last.name.as_str());
            p.append(INFO_END);
        },
        (None, Some(next)) => {
            p.append(NEXT_SONG_INFO);
            p.append(next.name.as_str());
            p.append(INFO_END);
        },
        (None, None) => {
            assert(p@ + Seq::<char>::empty() =~= p@);
        },
    }
    p.append(RADIO_CALLOUT_RULES);
    p
}

/// Prompt for a show introduction.
pub open spec fn show_intro_text(ctx: CalloutContext, station_full: Seq<char>) -> Seq<char> {
    match ctx.next_song {
        Some(show) => DJ_ON@ + station_full + SHOW_INTRO@ + show.name@ + SHOW_INTRO_RULES@,
        None => DJ_ON@ + station_full + SHOW_INTRO_FALLBACK@,
    }
}

pub fn show_intro_prompt(ctx: &CalloutContext, _station_id: &str, station_full: &str) -> (p: String)
    ensures
        p@ == show_intro_text(*ctx, station_full@),
{
    let mut p = String::from_str(DJ_ON);
    p.append(station_full);
    match &ctx.next_song {
        Some(show) => {
            p.append(SHOW_INTRO);
            p.append(show.name.as_str());
            p.append(SHOW_INTRO_RULES);
        },
        None => {
            p.append(SHOW_INTRO_FALLBACK);
        },
    }
    p
}

} // verus!

verus! {

/// A `Result` of strings, by the views of its strings.
pub open spec fn text_result(r: Result<String, String>) -> Result<Seq<char>, Seq<char>> {
    match r {
        Ok(t) => Ok(t@),
        Err(e) => Err(e@),
    }
}

/// The facts a detailed callout may rest on, or why there are none.
pub open spec fn detailed_facts(next: YoursFMTrack, m: TrackMetadata) -> Result<Seq<char>, Seq<char>> {
    match (m.release_year, m.wiki_summary) {
        (Some(year), Some(wiki)) => Ok(RELEASE_YEAR@ + decimal(year as nat) + CONTEXT_AFTER_YEAR@ + wiki@),
        (Some(year), None) => Ok(RELEASE_YEAR@ + decimal(year as nat)),
        (None, Some(wiki)) => Ok(CONTEXT@ + wiki@),
        (None, None) => Err(NO_METADATA@ + next.name@ + BY@ + next.artist@ + NO_METADATA_TAIL@),
    }
}

/// Prompt for a detailed next-song callout, from the metadata of the next song.
pub open spec fn detailed_text(ctx: CalloutContext, station_full: Seq<char>, m: TrackMetadata) -> Result<Seq<char>, Seq<char>> {
    match ctx.next_song {
        Some(next) => match detailed_facts(next, m) {
            Ok(facts) => Ok(DJ_ON@ + station_full + INTRODUCE_NEXT@ + next.name@ + BY@ + next.artist@
                + DETAILED_RULES@ + next.name@ + DETAILED_TAIL@ + facts),
            Err(e) => Err(e),
        },
        None => Ok(DJ_ON@ + station_full + SHORT_CALLOUT_FALLBACK@),
    }
}

fn introduce_next(station_full: &str, next: &YoursFMTrack, rules: &str, tail: &str, facts: &str) -> (p: String)
    ensures
        p@ == DJ_ON@ + station_full@ + INTRODUCE_NEXT@ + next.name@ + BY@ + next.artist@ + rules@ + next.name@
            + tail@ + facts@,
{
    let mut p = String::from_str(DJ_ON);
    p.append(station_full);
    p.append(INTRODUCE_NEXT);
    p.append(next.name.as_str());
    p.append(BY);
    p.append(next.artist.as_str());
    p.append(rules);
    p.append(next.name.as_str());
    p.append(tail);
    p.append(facts);
    p
}

fn missing_facts(head: &str, next: &YoursFMTrack, tail: &str) -> (e: String)
    ensures
        e@ == head@ + next.name@ + BY@ + next.artist@ + tail@,
{
    let mut e = String::from_str(head);
    e.append(next.name.as_str());
    e.append(BY);
    e.append(next.artist.as_str());
    e.append(tail);
    e
}

pub fn next_song_detailed_prompt(ctx: &CalloutContext, _station_id: &str, station_full: &str, metadata: &TrackMetadata) -> (p: Result<String, String>)
    ensures
        text_result(p) == detailed_text(*ctx, station_full@, *metadata),
{
    match &ctx.next_song {
        Some(next) => {
            let facts = match (&metadata.release_year, &metadata.wiki_summary) {
                (Some(year), Some(wiki)) => {
                    let mut f = String::from_str(RELEASE_YEAR);
                    let y = u32_to_decimal(*year);
                    f.append(y.as_str());
                    f.append(CONTEXT_AFTER_YEAR);
                    f.append(wiki.as_str());
                    f
                },
                (Some(year), None) => {
                    let mut f = String::from_str(RELEASE_YEAR);
                    let y = u32_to_decimal(*year);
                    f.append(y.as_str());
                    f
                },
                (None, Some(wiki)) => {
                    let mut f = String::from_str(CONTEXT);
                    f.append(wiki.as_str());
                    f
                },
                (None, None) => {
                    return Err(missing_facts(NO_METADATA, next, NO_METADATA_TAIL));
                },
            };
            Ok(introduce_next(station_full, next, DETAILED_RULES, DETAILED_TAIL, facts.as_str()))
        },
        None => {
            let mut p = String::from_str(DJ_ON);
            p.append(station_full);
            p.append(SHORT_CALLOUT_FALLBACK);
            Ok(p)
        },
    }
}

/// The wiki text a history callout rests on: the full content, else the summary.
pub open spec fn history_wiki(m: TrackMetadata) -> Option<String> {
    match m.wiki_content {
        Some(c) => Some(c),
        None => m.wiki_summary,
    }
}

/// The history a history callout may rest on, or why there is none.
pub open spec fn history_facts(next: YoursFMTrack, m: TrackMetadata) -> Result<Seq<char>, Seq<char>> {
    match (m.release_year, history_wiki(m)) {
        (year, Some(wiki)) => {
            let year_info = match year {
                Some(y) => RELEASE_YEAR@ + decimal(y as nat) + SENTENCE_BREAK@,
                None => Seq::empty(),
            };
            Ok(year_info + HISTORICAL_CONTEXT@ + wiki@)
        },
        (Some(year), None) => Err(ONLY_YEAR@ + next.name@ + BY@ + next.artist@ + ONLY_YEAR_MIDDLE@
            + decimal(year as nat) + ONLY_YEAR_TAIL@),
        (None, None) => Err(NO_HISTORY@ + next.name@ + BY@ + next.artist@ + NO_HISTORY_TAIL@),
    }
}

/// Prompt for a history next-song callout, from the metadata of the next song.
pub open spec fn history_text(ctx: CalloutContext, station_full: Seq<char>, m: TrackMetadata) -> Result<Seq<char>, Seq<char>> {
    match ctx.next_song {
        Some(next) => match history_facts(next, m) {
            Ok(facts) => Ok(DJ_ON@ + station_full + INTRODUCE_NEXT@ + next.name@ + BY@ + next.artist@
                + HISTORY_RULES@ + next.name@ + HISTORY_TAIL@ + facts),
            Err(e) => Err(e),
        },
        None => Ok(DJ_ON@ + station_full + SHORT_CALLOUT_FALLBACK@),
    }
}

pub fn next_song_history_prompt(ctx: &CalloutContext, _station_id: &str, station_full: &str, metadata: &TrackMetadata) -> (p: Result<String, String>)
    ensures
        text_result(p) == history_text(*ctx, station_full@, *metadata),
{
    match &ctx.next_song {
        Some(next) => {
            let wiki = match &metadata.wiki_content {
                Some(c) => Some(c),
                None => match &metadata.wiki_summary {
                    Some(s) => Some(s),
                    None => None,
                },
            };
            let facts = match (&metadata.release_year, wiki) {
                (year, Some(w)) => {
                    let mut f = String::new();
                    match year {
                        Some(y) => {
                            f.append(RELEASE_YEAR);
                            let d = u32_to_decimal(*y);
                            f.append(d.as_str());
                            f.append(SENTENCE_BREAK);
                        },
                        None => {},
                    }
                    f.append(HISTORICAL_CONTEXT);
                    f.append(w.as_str());
                    f
                },
                (Some(year), None) => {
                    let mut e = String::from_str(ONLY_YEAR);
                    e.append(next.name.as_str());
                    e.append(BY);
                    e.append(next.artist.as_str());
                    e.append(ONLY_YEAR_MIDDLE);
                    let d = u32_to_decimal(*year);
                    e.append(d.as_str());
                    e.append(ONLY_YEAR_TAIL);
                    return Err(e);
                },
                (None, None) => {
                    return Err(missing_facts(NO_HISTORY, next, NO_HISTORY_TAIL));
                },
            };
            Ok(introduce_next(station_full, next, HISTORY_RULES, HISTORY_TAIL, facts.as_str()))
        },
        None => {
            let mut p = String::from_str(DJ_ON);
            p.append(station_full);
            p.append(SHORT_CALLOUT_FALLBACK);
            Ok(p)
        },
    }
}

} // verus!

verus! {

/// The track whose metadata a segment's prompt rests on: the next song of a
/// detailed or history callout.
pub open spec fn metadata_subject(segment: RadioSegment) -> Option<YoursFMTrack> {
    match segment {
        RadioSegment::NextSongCalloutDetailed(c) | RadioSegment::NextSongCalloutHistory(c) => c.next_song,
        _ => None,
    }
}

/// Which track's metadata has to be fetched before the prompt for `segment` can be written.
pub fn prompt_metadata_track(segment: &RadioSegment) -> (t: Option<YoursFMTrack>)
    ensures
        t == metadata_subject(*segment),
{
    match segment {
        RadioSegment::NextSongCalloutDetailed(c) | RadioSegment::NextSongCalloutHistory(c) => match &c.next_song {
            Some(t) => Some(t.clone()),
            None => None,
        },
        _ => None,
    }
}

/// The prompt for a segment on a station: `metadata` is that of the segment's
/// `metadata_subject`, and is read only when it has one.
pub open spec fn prompt_text(segment: RadioSegment, station: StationConfiguration, metadata: TrackMetadata) -> Result<Seq<char>, Seq<char>> {
    let id = station_identifier(station.code@, station.channel@, station.frequency@);
    let full = station.name@ + ", "@ + id;
    match segment {
        RadioSegment::NextSongCallout(c) => Ok(next_song_text(c, id, full)),
        RadioSegment::LastSongCallout(c) => Ok(last_song_text(c, id)),
        RadioSegment::RadioCallout(c) => Ok(radio_callout_text(c, full)),
        RadioSegment::NextSongCalloutDetailed(c) => detailed_text(c, full, metadata),
        RadioSegment::NextSongCalloutHistory(c) => history_text(c, full, metadata),
        RadioSegment::NewsReport(_) => Ok(RADIO_DJ_ON@ + full + NEWS_TRANSITION@),
        RadioSegment::WeatherReport(_) => Ok(RADIO_DJ_ON@ + full + WEATHER_TRANSITION@),
        RadioSegment::ShowIntroduction(c) => Ok(show_intro_text(c, full)),
        RadioSegment::ShowClose(_) => Ok(RADIO_DJ_ON@ + full + SHOW_THANKS@),
        _ => Ok(RADIO_DJ_ON@ + id + STATION_IDENTIFICATION@),
    }
}

fn radio_dj_line(subject: &str, tail: &str) -> (p: String)
    ensures
        p@ == RADIO_DJ_ON@ + subject@ + tail@,
{
    let mut p = String::from_str(RADIO_DJ_ON);
    p.append(subject);
    p.append(tail);
    p
}

/// The prompt asking the language model for what the DJ says in `segment`.
pub fn build_prompt(segment: &RadioSegment, station: &StationConfiguration, metadata: &TrackMetadata) -> (p: Result<String, String>)
    ensures
        text_result(p) == prompt_text(*segment, *station, *metadata),
{
    let station_id = station.identifier();
    let station_full = station.full_name();
    let id = station_id.as_str();
    let full = station_full.as_str();
    match segment {
        RadioSegment::NextSongCallout(c) => Ok(next_song_prompt(c, id, full)),
        RadioSegment::LastSongCallout(c) => Ok(last_song_prompt(c, id, full)),
        RadioSegment::RadioCallout(c) => Ok(radio_callout_prompt(c, id, full)),
        RadioSegment::NextSongCalloutDetailed(c) => next_song_detailed_prompt(c, id, full, metadata),
        RadioSegment::NextSongCalloutHistory(c) => next_song_history_prompt(c, id, full, metadata),
        RadioSegment::NewsReport(_) => Ok(radio_dj_line(full, NEWS_TRANSITION)),
        RadioSegment::WeatherReport(_) => Ok(radio_dj_line(full, WEATHER_TRANSITION)),
        RadioSegment::ShowIntroduction(c) => Ok(show_intro_prompt(c, id, full)),
        RadioSegment::ShowClose(_) => Ok(radio_dj_line(full, SHOW_THANKS)),
        _ => Ok(radio_dj_line(id, STATION_IDENTIFICATION)),
    }
}

/// What the DJ says, from the model's answer: the first choice's text, trimmed.
pub open spec fn callout_text_of(choices: Seq<String>) -> Result<Seq<char>, Seq<char>> {
    if choices.len() == 0 {
        Err(NO_RESPONSE@)
    } else {
        Ok(trimmed(choices[0]@))
    }
}

pub fn callout_text_from_choices(choices: &Vec<String>) -> (t: Result<String, String>)
    ensures
        text_result(t) == callout_text_of(choices@),
{
    if choices.len() == 0 {
        Err(String::from_str(NO_RESPONSE))
    } else {
        Ok(trim(choices[0].as_str()))
    }
}

/// The `Authorization` header value for an API key.
pub fn bearer_authorization(api_key: &str) -> (h: String)
    ensures
        h@ == BEARER@ + api_key@,
{
    let mut h = String::from_str(BEARER);
    h.append(api_key);
    h
}

} // verus!

verus! {

/// A segment whose prompt rests on no track's metadata gets the same prompt
/// whatever metadata is handed in, so none needs to be fetched for it.
pub proof fn lemma_prompt_ignores_unneeded_metadata(
    segment: RadioSegment,
    station: StationConfiguration,
    m1: TrackMetadata,
    m2: TrackMetadata,
)
    requires
        metadata_subject(segment) is None,
    ensures
        prompt_text(segment, station, m1) == prompt_text(segment, station, m2),
{
}

} // verus!

verus! {

/// A detailed callout rests on the release year and the wiki summary alone:
/// two metadata that agree on those give the same prompt, whatever full wiki
/// content either carries; and when a summary is known, the prompt ends with
/// that summary's text.
pub proof fn lemma_detailed_callout_rests_on_summary(
    ctx: CalloutContext,
    station: StationConfiguration,
    m1: TrackMetadata,
    m2: TrackMetadata,
)
    requires
        m1.release_year == m2.release_year,
        m1.wiki_summary == m2.wiki_summary,
    ensures
        prompt_text(RadioSegment::NextSongCalloutDetailed(ctx), station, m1)
            == prompt_text(RadioSegment::NextSongCalloutDetailed(ctx), station, m2),
        ctx.next_song is Some && m1.wiki_summary is Some ==> {
            let w = m1.wiki_summary->0@;
            prompt_text(RadioSegment::NextSongCalloutDetailed(ctx), station, m1) matches Ok(p)
                && w.len() <= p.len() && p.subrange(p.len() - w.len(), p.len() as int) == w
        },
{
    if ctx.next_song is Some && m1.wiki_summary is Some {
        let w = m1.wiki_summary->0@;
        let p = prompt_text(RadioSegment::NextSongCalloutDetailed(ctx), station, m1);
        assert(p is Ok);
        let pt = p->Ok_0;
        assert(pt.subrange(pt.len() - w.len(), pt.len() as int) =~= w);
    }
}

} // verus!
