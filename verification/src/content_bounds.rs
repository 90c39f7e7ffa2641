//! Content duration bounds mirrored from the engine once per tick.

use vstd::prelude::*;

verus! {

/// Where the arranged content ends: the last beat (thousandths of beats)
/// and the duration it amounts to at the current tempo (thousandths of
/// seconds).
#[derive(Clone, Copy, Debug, PartialEq, Eq, Structural)]
pub struct ContentBounds {
    pub end_beat: u64,
    pub duration_seconds: u64,
}

impl Default for ContentBounds {
    fn default() -> (r: Self)
        ensures
            r == (ContentBounds { end_beat: 0, duration_seconds: 0 }),
    {
        ContentBounds { end_beat: 0, duration_seconds: 0 }
    }
}

/// Replaces the mirrored bounds wholesale from the engine's reads; a
/// missing engine passes the prior values through.
pub fn content_bounds_sync_system(bounds: &mut ContentBounds, snapshot: Option<(u64, u64)>)
    ensures
        snapshot is None ==> *final(bounds) == *old(bounds),
        snapshot matches Some(b) ==> *final(bounds) == (ContentBounds {
            end_beat: b.0,
            duration_seconds: b.1,
        }),
{
    if let Some((end_beat, duration_seconds)) = snapshot {
        bounds.end_beat = end_beat;
        bounds.duration_seconds = duration_seconds;
    }
}

} // verus!
