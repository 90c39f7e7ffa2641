//! Transport state mirrored from the engine once per tick.

use vstd::prelude::*;

verus! {

/// Control-plane copy of the engine's transport.  Beats are thousandths of
/// a beat, the tempo is thousandths of beats per minute.
#[derive(Debug, Clone, PartialEq, Eq, Structural)]
pub struct TransportState {
    pub tempo: u32,
    pub beat: u64,
    pub is_playing: bool,
    pub is_paused: bool,
    pub is_recording: bool,
    pub is_looping: bool,
    pub loop_start: u64,
    pub loop_end: u64,
    pub time_sig_numerator: u8,
    pub time_sig_denominator: u8,
}

impl Default for TransportState {
    fn default() -> (r: Self)
        ensures
            r == (TransportState {
                tempo: 120_000,
                beat: 0,
                is_playing: false,
                is_paused: true,
                is_recording: false,
                is_looping: false,
                loop_start: 0,
                loop_end: 16_000,
                time_sig_numerator: 4,
                time_sig_denominator: 4,
            }),
    {
        TransportState {
            tempo: 120_000,
            beat: 0,
            is_playing: false,
            is_paused: true,
            is_recording: false,
            is_looping: false,
            loop_start: 0,
            loop_end: 16_000,
            time_sig_numerator: 4,
            time_sig_denominator: 4,
        }
    }
}

impl TransportState {
    pub fn beat(&self) -> (r: u64)
        ensures
            r == self.beat,
    {
        self.beat
    }

    pub fn tempo(&self) -> (r: u32)
        ensures
            r == self.tempo,
    {
        self.tempo
    }

    pub fn is_playing(&self) -> (r: bool)
        ensures
            r == self.is_playing,
    {
        self.is_playing
    }

    pub fn is_looping(&self) -> (r: bool)
        ensures
            r == self.is_looping,
    {
        self.is_looping
    }

    pub fn loop_range(&self) -> (r: (u64, u64))
        ensures
            r == ((self.loop_start, self.loop_end)),
    {
        (self.loop_start, self.loop_end)
    }
}

/// What the driver read from the engine's transport accessor this tick.
#[derive(Clone, Copy, Debug, PartialEq, Eq)]
pub struct TransportSnapshot {
    pub beat: u64,
    pub is_playing: bool,
    pub is_recording: bool,
    pub tempo: u32,
    pub is_looping: bool,
    /// The loop bounds, when the engine has any configured.
    pub loop_range: Option<(u64, u64)>,
}

/// Replaces the mirrored transport fields wholesale from the engine's
/// snapshot; with no engine the mirror is a no-op and the prior values
/// pass through.
///
/// The loop bounds are the one deliberate exception to wholesale
/// replacement: an engine with no loop configured publishes no bounds at
/// all, so there is no value to replace them with, and the mirror keeps
/// the last known bounds (the defaults before any were seen) — `is_looping`
/// alone says whether they are in effect.
pub fn transport_sync_system(state: &mut TransportState, snapshot: Option<TransportSnapshot>)
    ensures
        snapshot is None ==> *final(state) == *old(state),
        snapshot matches Some(t) ==> *final(state) == (TransportState {
            beat: t.beat,
            is_playing: t.is_playing,
            is_recording: t.is_recording,
            tempo: t.tempo,
            is_looping: t.is_looping,
            loop_start: if t.loop_range is Some {
                (t.loop_range->0).0
            } else {
                old(state).loop_start
            },
            loop_end: if t.loop_range is Some {
                (t.loop_range->0).1
            } else {
                old(state).loop_end
            },
            ..*old(state)
        }),
{
    let t = match snapshot {
        Some(t) => t,
        None => {
            return ;
        },
    };
    state.beat = t.beat;
    state.is_playing = t.is_playing;
    state.is_recording = t.is_recording;
    state.tempo = t.tempo;
    state.is_looping = t.is_looping;
    if let Some((start, end)) = t.loop_range {
        state.loop_start = start;
        state.loop_end = end;
    }
}

} // verus!
