//! Finding recordings online and naming the files audio is cached in.
use vstd::prelude::*;
use vstd::string::*;

use crate::radio::is_uuid_text;

verus! {

pub const QUERY_SEPARATOR: &'static str = " - ";
pub const SEARCH_FIRST_RESULT: &'static str = "ytsearch1:";
pub const AUDIO_EXTENSION: &'static str = ".mp3";
pub const TEMP_AUDIO_SUFFIX: &'static str = "_temp.mp3";

/// The search that finds a track's recording: `name - artist - album`.
pub fn youtube_search_query(track_name: &str, artist: &str, album_name: &str) -> (q: String)
    ensures
        q@ == track_name@ + QUERY_SEPARATOR@ + artist@ + QUERY_SEPARATOR@ + album_name@,
{
    let mut q = String::from_str(track_name);
    q.append(QUERY_SEPARATOR);
    q.append(artist);
    q.append(QUERY_SEPARATOR);
    q.append(album_name);
    q
}

/// The downloader's target for the first search result of a query.
pub fn youtube_search_target(query: &str) -> (t: String)
    ensures
        t@ == SEARCH_FIRST_RESULT@ + query@,
{
    let mut t = String::from_str(SEARCH_FIRST_RESULT);
    t.append(query);
    t
}

/// Calls `uuid::Uuid::new_v4` and formats it with `Display`: a random
/// version-4 UUID, of which only the text shape is stated (random bytes with
/// version and variant set by `Builder::from_random_bytes`, hyphenated lower case).
#[verifier::external_body]
fn random_uuid_text() -> (id: String)
    ensures
        is_uuid_text(id@, '4'),
{
    uuid::Uuid::new_v4().to_string()
}

/// File names for one piece of cached audio, made from a fresh random id:
/// the final file and the temporary file it is converted from.
#[derive(Debug)]
pub struct AudioFileNames {
    pub id: String,
    pub audio: String,
    pub temp: String,
}

pub fn new_audio_file_names() -> (names: AudioFileNames)
    ensures
        is_uuid_text(names.id@, '4'),
        names.audio@ == names.id@ + AUDIO_EXTENSION@,
        names.temp@ == names.id@ + TEMP_AUDIO_SUFFIX@,
{
    let id = random_uuid_text();
    let mut audio = id.clone();
    audio.append(AUDIO_EXTENSION);
    let mut temp = id.clone();
    temp.append(TEMP_AUDIO_SUFFIX);
    AudioFileNames { id, audio, temp }
}

} // verus!
