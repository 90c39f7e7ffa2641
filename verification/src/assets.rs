//! Decoded audio sources.  Decoding itself is the engine's work; the
//! control plane keeps the reference and the plain facts it reads.

use vstd::prelude::*;

use vstd::string::StringExecFns;

verus! {

/// A decoded wave owned by the engine, with the metadata the control plane
/// reads: duration in thousandths of seconds, sample rate in hertz, and
/// channel count.
#[derive(Clone, Copy, Debug, PartialEq, Eq, Structural)]
pub struct WaveHandle {
    pub id: u64,
    pub duration_seconds: u64,
    pub sample_rate: u32,
    pub channels: usize,
}

/// An audio source asset: a wave reference plus its metadata, copied out
/// once at construction so readers never touch the engine.
#[derive(Clone, Copy, Debug, PartialEq, Eq, Structural)]
pub struct TuttiAudioSource {
    pub wave: WaveHandle,
    pub duration_seconds: u64,
    pub sample_rate: u32,
    pub channels: usize,
}

impl TuttiAudioSource {
    /// Wraps a decoded wave, copying its metadata into the asset.
    pub fn from_wave(wave: WaveHandle) -> (r: Self)
        ensures
            r.wave == wave,
            r.duration_seconds == wave.duration_seconds,
            r.sample_rate == wave.sample_rate,
            r.channels == wave.channels,
    {
        TuttiAudioSource {
            wave,
            duration_seconds: wave.duration_seconds,
            sample_rate: wave.sample_rate,
            channels: wave.channels,
        }
    }

    pub fn wave(&self) -> (r: &WaveHandle)
        ensures
            *r == self.wave,
    {
        &self.wave
    }
}

/// Why loading an audio source failed.
#[derive(Debug, Clone, PartialEq, Eq)]
pub enum AudioLoadError {
    Io(String),
    Decode(String),
}

/// Loader for the audio formats the engine decodes.
#[derive(Clone, Copy, Debug, PartialEq, Eq, Structural)]
pub struct TuttiAudioLoader;

impl TuttiAudioLoader {
    /// The file extensions this loader accepts.
    pub fn extensions(&self) -> (r: Vec<String>)
        ensures
            r@.len() == 4,
            r@[0]@ == "wav"@,
            r@[1]@ == "flac"@,
            r@[2]@ == "mp3"@,
            r@[3]@ == "ogg"@,
    {
        let mut r: Vec<String> = Vec::new();
        r.push(String::from_str("wav"));
        r.push(String::from_str("flac"));
        r.push(String::from_str("mp3"));
        r.push(String::from_str("ogg"));
        r
    }
}

} // verus!
