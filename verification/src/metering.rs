//! Master output meters mirrored from the engine once per tick.

use vstd::prelude::*;

verus! {

/// Master output peak and RMS levels, in thousandths of full scale.
#[derive(Clone, Copy, Debug, PartialEq, Eq, Structural)]
pub struct MasterMeterLevels {
    pub peak_left: u32,
    pub peak_right: u32,
    pub rms_left: u32,
    pub rms_right: u32,
}

impl Default for MasterMeterLevels {
    fn default() -> (r: Self)
        ensures
            r == (MasterMeterLevels { peak_left: 0, peak_right: 0, rms_left: 0, rms_right: 0 }),
    {
        MasterMeterLevels { peak_left: 0, peak_right: 0, rms_left: 0, rms_right: 0 }
    }
}

/// Replaces the mirrored meter levels wholesale from the engine's lock-free
/// amplitude read `(peak left, peak right, rms left, rms right)`; a missing
/// engine passes the prior values through.
pub fn metering_sync_system(levels: &mut MasterMeterLevels, amplitude: Option<(u32, u32, u32, u32)>)
    ensures
        amplitude is None ==> *final(levels) == *old(levels),
        amplitude matches Some(a) ==> *final(levels) == (MasterMeterLevels {
            peak_left: a.0,
            peak_right: a.1,
            rms_left: a.2,
            rms_right: a.3,
        }),
{
    if let Some((pl, pr, rl, rr)) = amplitude {
        levels.peak_left = pl;
        levels.peak_right = pr;
        levels.rms_left = rl;
        levels.rms_right = rr;
    }
}

} // verus!
