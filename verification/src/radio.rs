use vstd::prelude::*;
use vstd::string::*;

verus! {

/// A station's identity as written in the configuration file.
#[derive(Debug)]
pub struct StationConfiguration {
    pub code: String,
    pub name: String,
    pub frequency: String,
    pub channel: String,
}

/// `code-channel frequency`, as in "TVAN-AM 840".
pub open spec fn station_identifier(code: Seq<char>, channel: Seq<char>, frequency: Seq<char>) -> Seq<char> {
    code + "-"@ + channel + " "@ + frequency
}

impl StationConfiguration {
    /// Formatted station identifier: "TVAN-AM 840".
    pub fn identifier(&self) -> (id: String)
        ensures
            id@ == station_identifier(self.code@, self.channel@, self.frequency@),
    {
        let mut id = self.code.clone();
        id.append("-");
        id.append(self.channel.as_str());
        id.append(" ");
        id.append(self.frequency.as_str());
        id
    }

    /// Full station description: "Talon's Radio, TVAN-AM 840".
    pub fn full_name(&self) -> (full: String)
        ensures
            full@ == self.name@ + ", "@ + station_identifier(self.code@, self.channel@, self.frequency@),
    {
        let mut full = self.name.clone();
        full.append(", ");
        let id = self.identifier();
        full.append(id.as_str());
        full
    }
}

} // verus!

verus! {

/// A track of the station's pools (a song or a show), identified by a
/// name-based UUID of its metadata.
#[derive(Debug)]
pub struct YoursFMTrack {
    pub id: String,
    pub name: String,
    pub artist: String,
    pub album_name: String,
    pub album_release_date: String,
}

impl Clone for YoursFMTrack {
    fn clone(&self) -> (copy: Self)
        ensures
            copy == *self,
    {
        YoursFMTrack {
            id: self.id.clone(),
            name: self.name.clone(),
            artist: self.artist.clone(),
            album_name: self.album_name.clone(),
            album_release_date: self.album_release_date.clone(),
        }
    }
}

/// The track that would be taken next from a pool: pools are consumed from the back.
pub open spec fn pool_peek(pool: Seq<YoursFMTrack>) -> Option<YoursFMTrack> {
    if pool.len() == 0 {
        None
    } else {
        Some(pool.last())
    }
}

/// Peek at the next song of a pool without removing it.
pub fn peek_next_song(track_pool: &Vec<YoursFMTrack>) -> (next: Option<YoursFMTrack>)
    ensures
        next == pool_peek(track_pool@),
{
    let n = track_pool.len();
    if n == 0 {
        None
    } else {
        Some(track_pool[n - 1].clone())
    }
}

} // verus!

verus! {

/// The hyphenated lower-case text form of a UUID of the given version digit:
/// 36 characters, hyphens at 8, 13, 18 and 23, lower-case hex digits elsewhere,
/// the version digit at 14 and an RFC 4122 variant digit at 19.
pub open spec fn is_uuid_text(s: Seq<char>, version: char) -> bool {
    &&& s.len() == 36
    &&& forall|i: int|
        0 <= i < 36 ==> (if i == 8 || i == 13 || i == 18 || i == 23 {
            s[i] == '-'
        } else {
            ('0' <= #[trigger] s[i] <= '9') || ('a' <= s[i] <= 'f')
        })
    &&& s[14] == version
    &&& (s[19] == '8' || s[19] == '9' || s[19] == 'a' || s[19] == 'b')
}

/// What `uuid::Uuid::new_v5(&Uuid::NAMESPACE_URL, name)` formats to, for the
/// UTF-8 bytes of `name`.
pub uninterp spec fn uuid_v5_url_text(name: Seq<char>) -> Seq<char>;

/// Calls `uuid::Uuid::new_v5` in the URL namespace on the UTF-8 bytes of `name`
/// and formats the result with `Display` (hyphenated, lower case). The SHA-1
/// based value is only named; what is stated besides is its text shape with
/// version digit 5, which `Builder::from_sha1_bytes` and `format_hyphenated` show.
#[verifier::external_body]
fn uuid_v5_url_string(name: &str) -> (id: String)
    ensures
        id@ == uuid_v5_url_text(name@),
        is_uuid_text(id@, '5'),
{
    uuid::Uuid::new_v5(&uuid::Uuid::NAMESPACE_URL, name.as_bytes()).to_string()
}

/// The name hashed into a track's id: `name-artist-album-date`.
pub open spec fn track_id_name(
    name: Seq<char>,
    artist: Seq<char>,
    album_name: Seq<char>,
    album_release_date: Seq<char>,
) -> Seq<char> {
    name + "-"@ + artist + "-"@ + album_name + "-"@ + album_release_date
}

/// A stable id for a track: the URL-namespace v5 UUID of its joined metadata.
pub fn generate_track_id(name: String, artist: String, album_name: String, album_release_date: String) -> (id: String)
    ensures
        id@ == uuid_v5_url_text(track_id_name(name@, artist@, album_name@, album_release_date@)),
        is_uuid_text(id@, '5'),
{
    let mut key = name;
    key.append("-");
    key.append(artist.as_str());
    key.append("-");
    key.append(album_name.as_str());
    key.append("-");
    key.append(album_release_date.as_str());
    uuid_v5_url_string(key.as_str())
}

} // verus!

verus! {

/// What a spoken segment knows about its surroundings: the song that played
/// last and the track that is coming up.
#[derive(Debug)]
pub struct CalloutContext {
    pub last_song: Option<YoursFMTrack>,
    pub next_song: Option<YoursFMTrack>,
}

/// A copy of an optional track.
pub fn clone_optional_track(t: &Option<YoursFMTrack>) -> (copy: Option<YoursFMTrack>)
    ensures
        copy == *t,
{
    match t {
        Some(track) => Some(track.clone()),
        None => None,
    }
}

impl Clone for CalloutContext {
    fn clone(&self) -> (copy: Self)
        ensures
            copy == *self,
    {
        CalloutContext {
            last_song: clone_optional_track(&self.last_song),
            next_song: clone_optional_track(&self.next_song),
        }
    }
}

/// One item of the broadcast: a spoken segment with its context, or a track.
#[derive(Debug)]
pub enum RadioSegment {
    NextSongCallout(CalloutContext),
    LastSongCallout(CalloutContext),
    RadioCallout(CalloutContext),
    ShowIntroduction(CalloutContext),
    NextSongCalloutDetailed(CalloutContext),
    NextSongCalloutHistory(CalloutContext),
    NewsReport(CalloutContext),
    WeatherReport(CalloutContext),
    Song(YoursFMTrack),
    Show(YoursFMTrack),
    ShowClose(CalloutContext),
}

impl Clone for RadioSegment {
    fn clone(&self) -> (copy: Self)
        ensures
            copy == *self,
    {
        match self {
            RadioSegment::NextSongCallout(c) => RadioSegment::NextSongCallout(c.clone()),
            RadioSegment::LastSongCallout(c) => RadioSegment::LastSongCallout(c.clone()),
            RadioSegment::RadioCallout(c) => RadioSegment::RadioCallout(c.clone()),
            RadioSegment::ShowIntroduction(c) => RadioSegment::ShowIntroduction(c.clone()),
            RadioSegment::NextSongCalloutDetailed(c) => RadioSegment::NextSongCalloutDetailed(c.clone()),
            RadioSegment::NextSongCalloutHistory(c) => RadioSegment::NextSongCalloutHistory(c.clone()),
            RadioSegment::NewsReport(c) => RadioSegment::NewsReport(c.clone()),
            RadioSegment::WeatherReport(c) => RadioSegment::WeatherReport(c.clone()),
            RadioSegment::Song(t) => RadioSegment::Song(t.clone()),
            RadioSegment::Show(t) => RadioSegment::Show(t.clone()),
            RadioSegment::ShowClose(c) => RadioSegment::ShowClose(c.clone()),
        }
    }
}

/// The context a spoken segment carries, if it is one.
pub open spec fn segment_context(seg: RadioSegment) -> Option<CalloutContext> {
    match seg {
        RadioSegment::Song(_) | RadioSegment::Show(_) => None,
        RadioSegment::NextSongCallout(c) | RadioSegment::LastSongCallout(c)
        | RadioSegment::RadioCallout(c) | RadioSegment::ShowIntroduction(c)
        | RadioSegment::NextSongCalloutDetailed(c) | RadioSegment::NextSongCalloutHistory(c)
        | RadioSegment::NewsReport(c) | RadioSegment::WeatherReport(c)
        | RadioSegment::ShowClose(c) => Some(c),
    }
}

/// The track a segment plays: a song (`shows == false`) or a show (`shows == true`).
pub open spec fn segment_track(seg: RadioSegment, shows: bool) -> Option<YoursFMTrack> {
    match seg {
        RadioSegment::Song(t) => if shows { None } else { Some(t) },
        RadioSegment::Show(t) => if shows { Some(t) } else { None },
        _ => None,
    }
}

} // verus!
