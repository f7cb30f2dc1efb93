//! The audio side of the station: caching, fetching, prompting, speech and streaming.
use vstd::prelude::*;

pub mod cache;
pub mod fetcher;
pub mod llm;
pub mod metadata;
pub mod stream;
pub mod tts;

verus! {

/// Audio format configuration.
#[derive(Debug, Clone)]
pub struct AudioConfig {
    pub sample_rate: u32,
    pub bit_rate: u32,
    pub channels: u16,
    pub format: AudioFormat,
}

#[derive(Debug, Clone, PartialEq, Eq, Structural)]
pub enum AudioFormat {
    Mp3,
    Opus,
}

impl Default for AudioConfig {
    /// 44.1 kHz stereo MP3 at 192 kbit/s.
    fn default() -> (c: Self)
        ensures
            c.sample_rate == 44100,
            c.bit_rate == 192000,
            c.channels == 2,
            c.format == AudioFormat::Mp3,
    {
        AudioConfig { sample_rate: 44100, bit_rate: 192000, channels: 2, format: AudioFormat::Mp3 }
    }
}

} // verus!
