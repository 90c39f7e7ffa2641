//! Soundfont assets: a parsed soundfont owned by the engine, with the
//! counts the control plane reads.

use vstd::prelude::*;

use vstd::string::StringExecFns;

verus! {

/// A parsed soundfont owned by the engine: a reference plus the preset and
/// instrument counts the parser reported.
#[derive(Clone, Copy, Debug, PartialEq, Eq, Structural)]
pub struct SoundFontHandle {
    pub id: u64,
    pub preset_count: usize,
    pub instrument_count: usize,
}

/// A soundfont asset with its counts copied out at construction.
#[derive(Clone, Copy, Debug, PartialEq, Eq, Structural)]
pub struct SoundFontSource {
    pub soundfont: SoundFontHandle,
    pub preset_count: usize,
    pub instrument_count: usize,
}

impl SoundFontSource {
    /// Wraps a parsed soundfont, copying its counts into the asset.
    pub fn from_soundfont(soundfont: SoundFontHandle) -> (r: Self)
        ensures
            r.soundfont == soundfont,
            r.preset_count == soundfont.preset_count,
            r.instrument_count == soundfont.instrument_count,
    {
        SoundFontSource {
            soundfont,
            preset_count: soundfont.preset_count,
            instrument_count: soundfont.instrument_count,
        }
    }

    pub fn soundfont(&self) -> (r: &SoundFontHandle)
        ensures
            *r == self.soundfont,
    {
        &self.soundfont
    }
}

/// Why loading a soundfont failed.
#[derive(Debug, Clone, PartialEq, Eq)]
pub enum Sf2LoadError {
    Io(String),
    Parse(String),
}

/// Loader for the soundfont binary format.
#[derive(Clone, Copy, Debug, PartialEq, Eq, Structural)]
pub struct Sf2Loader;

impl Sf2Loader {
    /// The file extensions this loader accepts.
    pub fn extensions(&self) -> (r: Vec<String>)
        ensures
            r@.len() == 1,
            r@[0]@ == "sf2"@,
    {
        let mut r: Vec<String> = Vec::new();
        r.push(String::from_str("sf2"));
        r
    }
}

} // verus!
