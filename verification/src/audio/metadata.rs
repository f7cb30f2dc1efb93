//! Track metadata from Last.fm (wiki text) and MusicBrainz (release year):
//! the request URLs, and what is kept of the answers.
use vstd::prelude::*;
use vstd::string::*;
use vstd::utf8::encode_utf8;

use crate::text::{first_piece, first_piece_of, parse_u32, parse_u32_text, trim, trimmed};

verus! {

/// What is known of a track beyond its name: year of first release and wiki text.
#[derive(Debug, Clone)]
pub struct TrackMetadata {
    pub release_year: Option<u32>,
    pub wiki_summary: Option<String>,
    pub wiki_content: Option<String>,
}

/// Bytes that `urlencoding::encode` leaves as they are.
pub open spec fn is_unreserved(b: u8) -> bool {
    ||| 48 <= b <= 57
    ||| 65 <= b <= 90
    ||| 97 <= b <= 122
    ||| b == 45 || b == 46 || b == 95 || b == 126
}

/// Upper-case hex digit of `d < 16`.
pub open spec fn hex_upper(d: u8) -> char {
    if d < 10 {
        (48 + d) as char
    } else {
        (55 + d) as char
    }
}

/// Percent-encoding of a byte string: unreserved bytes stay, every other byte
/// becomes `%` and two upper-case hex digits.
pub open spec fn percent_encoded(bytes: Seq<u8>) -> Seq<char>
    decreases bytes.len(),
{
    if bytes.len() == 0 {
        Seq::empty()
    } else {
        let b = bytes[0];
        let head = if is_unreserved(b) {
            seq![b as char]
        } else {
            seq!['%', hex_upper(b / 16), hex_upper(b % 16)]
        };
        head + percent_encoded(bytes.drop_first())
    }
}

/// Calls `urlencoding::encode`, which percent-encodes every UTF-8 byte of its
/// argument except ASCII alphanumerics and `-`, `.`, `_`, `~`, with upper-case
/// hex digits (as its `encode_into` and `to_hex_digit` show).
#[verifier::external_body]
fn url_encode(s: &str) -> (e: String)
    ensures
        e@ == percent_encoded(encode_utf8(s@)),
{
    urlencoding::encode(s).into_owned()
}

pub const LASTFM_TRACK_INFO: &'static str = "http://ws.audioscrobbler.com/2.0/?method=track.getInfo&api_key=";
pub const LASTFM_ARTIST: &'static str = "&artist=";
pub const LASTFM_TRACK: &'static str = "&track=";
pub const LASTFM_TAIL: &'static str = "&format=json&autocorrect=1";

/// The Last.fm `track.getInfo` request for a track.
pub open spec fn lastfm_url(api_key: Seq<char>, artist: Seq<char>, track: Seq<char>) -> Seq<char> {
    LASTFM_TRACK_INFO@ + api_key + LASTFM_ARTIST@ + percent_encoded(encode_utf8(artist)) + LASTFM_TRACK@
        + percent_encoded(encode_utf8(track)) + LASTFM_TAIL@
}

pub fn lastfm_track_info_url(api_key: &str, artist: &str, track: &str) -> (url: String)
    ensures
        url@ == lastfm_url(api_key@, artist@, track@),
{
    let mut url = String::from_str(LASTFM_TRACK_INFO);
    url.append(api_key);
    url.append(LASTFM_ARTIST);
    let a = url_encode(artist);
    url.append(a.as_str());
    url.append(LASTFM_TRACK);
    let t = url_encode(track);
    url.append(t.as_str());
    url.append(LASTFM_TAIL);
    url
}

pub const WIKI_LINK_MARKER: &'static str = "<a href";

/// Last.fm wiki text without the "Read more on Last.fm" link it ends with, trimmed.
pub open spec fn cleaned_wiki_text(s: Seq<char>) -> Seq<char> {
    trimmed(first_piece(s, WIKI_LINK_MARKER@))
}

pub fn clean_wiki_text(s: &str) -> (t: String)
    ensures
        t@ == cleaned_wiki_text(s@),
{
    let piece = first_piece_of(s, WIKI_LINK_MARKER);
    trim(piece.as_str())
}

/// The wiki summary and content kept from a Last.fm answer.
pub fn lastfm_wiki_texts(summary: &str, content: &str) -> (texts: (String, String))
    ensures
        texts.0@ == cleaned_wiki_text(summary@),
        texts.1@ == cleaned_wiki_text(content@),
{
    (clean_wiki_text(summary), clean_wiki_text(content))
}

pub const MUSICBRAINZ_RECORDING: &'static str = "recording:\"";
pub const MUSICBRAINZ_ARTIST: &'static str = "\" AND artist:\"";
pub const MUSICBRAINZ_QUOTE: &'static str = "\"";
pub const MUSICBRAINZ_SEARCH: &'static str = "https://musicbrainz.org/ws/2/recording/?query=";
pub const MUSICBRAINZ_TAIL: &'static str = "&fmt=json&limit=1";
pub const USER_AGENT_HEAD: &'static str = "YoursFM/0.1.0 ( ";
pub const USER_AGENT_TAIL: &'static str = " )";

/// The MusicBrainz search query for a recording by an artist.
pub open spec fn musicbrainz_query(track: Seq<char>, artist: Seq<char>) -> Seq<char> {
    MUSICBRAINZ_RECORDING@ + track + MUSICBRAINZ_ARTIST@ + artist + MUSICBRAINZ_QUOTE@
}

/// The MusicBrainz recording search for the first match of a track.
pub open spec fn musicbrainz_url(track: Seq<char>, artist: Seq<char>) -> Seq<char> {
    MUSICBRAINZ_SEARCH@ + percent_encoded(encode_utf8(musicbrainz_query(track, artist))) + MUSICBRAINZ_TAIL@
}

pub fn musicbrainz_search_url(track: &str, artist: &str) -> (url: String)
    ensures
        url@ == musicbrainz_url(track@, artist@),
{
    let mut query = String::from_str(MUSICBRAINZ_RECORDING);
    query.append(track);
    query.append(MUSICBRAINZ_ARTIST);
    query.append(artist);
    query.append(MUSICBRAINZ_QUOTE);
    let mut url = String::from_str(MUSICBRAINZ_SEARCH);
    let q = url_encode(query.as_str());
    url.append(q.as_str());
    url.append(MUSICBRAINZ_TAIL);
    url
}

/// The `User-Agent` MusicBrainz asks clients to send, with a contact.
pub fn musicbrainz_user_agent(contact: &str) -> (ua: String)
    ensures
        ua@ == USER_AGENT_HEAD@ + contact@ + USER_AGENT_TAIL@,
{
    let mut ua = String::from_str(USER_AGENT_HEAD);
    ua.append(contact);
    ua.append(USER_AGENT_TAIL);
    ua
}

pub const DATE_SEPARATOR: &'static str = "-";

/// The year of a `YYYY-MM-DD` date (or of a bare year): the text before the
/// first `-`, parsed as a `u32`.
pub open spec fn release_year_of(date: Seq<char>) -> Option<u32> {
    parse_u32(first_piece(date, DATE_SEPARATOR@))
}

pub fn release_year_from_date(date: &str) -> (year: Option<u32>)
    ensures
        year == release_year_of(date@),
{
    let head = first_piece_of(date, DATE_SEPARATOR);
    parse_u32_text(head.as_str())
}

/// Metadata of a track from the Last.fm wiki texts (summary, content) and the
/// MusicBrainz year, each of which may be missing.
pub fn combine_track_metadata(lastfm: Option<(String, String)>, release_year: Option<u32>) -> (m: TrackMetadata)
    ensures
        m.release_year == release_year,
        m.wiki_summary == match lastfm {
            Some(texts) => Some(texts.0),
            None => None::<String>,
        },
        m.wiki_content == match lastfm {
            Some(texts) => Some(texts.1),
            None => None::<String>,
        },
{
    match lastfm {
        Some((summary, content)) => TrackMetadata {
            release_year,
            wiki_summary: Some(summary),
            wiki_content: Some(content),
        },
        None => TrackMetadata { release_year, wiki_summary: None, wiki_content: None },
    }
}

} // verus!
