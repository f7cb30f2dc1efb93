//! The speech synthesis request.
use vstd::prelude::*;
use vstd::string::*;

verus! {

pub const SPEECH_ENDPOINT: &'static str = "https://api.elevenlabs.io/v1/text-to-speech/";
pub const SPEECH_FORMAT: &'static str = "?output_format=mp3_44100_128";

/// The text-to-speech request for a voice, asking for 44.1 kHz MP3 at 128 kbit/s.
pub fn speech_request_url(voice_id: &str) -> (url: String)
    ensures
        url@ == SPEECH_ENDPOINT@ + voice_id@ + SPEECH_FORMAT@,
{
    let mut url = String::from_str(SPEECH_ENDPOINT);
    url.append(voice_id);
    url.append(SPEECH_FORMAT);
    url
}

} // verus!
