//! Live analysis: the enable/disable control stage and the mirrored
//! analysis results.

use vstd::prelude::*;

use crate::session::Session;

verus! {

/// The engine's most recent pitch estimate: frequency in thousandths of a
/// hertz and confidence in thousandths.
#[derive(Clone, Copy, Debug, PartialEq, Eq, Structural)]
pub struct PitchResult {
    pub frequency: u64,
    pub confidence: u32,
}

impl Default for PitchResult {
    fn default() -> (r: Self)
        ensures
            r == (PitchResult { frequency: 0, confidence: 0 }),
    {
        PitchResult { frequency: 0, confidence: 0 }
    }
}

/// One detected transient: its position in thousandths of seconds and its
/// strength in thousandths.
#[derive(Clone, Copy, Debug, PartialEq, Eq, Structural)]
pub struct Transient {
    pub position: u64,
    pub strength: u32,
}

/// A coarse waveform: one peak level per bucket, in thousandths.
#[derive(Debug, Clone, PartialEq, Eq)]
pub struct WaveformSummary {
    pub peaks: Vec<u32>,
}

impl Default for WaveformSummary {
    fn default() -> (r: Self)
        ensures
            r.peaks@ =~= Seq::<u32>::empty(),
    {
        WaveformSummary { peaks: Vec::new() }
    }
}

/// Control-plane copy of the engine's live analysis results.
#[derive(Debug, Clone, PartialEq, Eq)]
pub struct LiveAnalysisData {
    pub pitch: PitchResult,
    pub transients: Vec<Transient>,
    pub waveform: WaveformSummary,
    pub is_live: bool,
}

impl Default for LiveAnalysisData {
    fn default() -> (r: Self)
        ensures
            r.pitch == (PitchResult { frequency: 0, confidence: 0 }),
            r.transients@ =~= Seq::<Transient>::empty(),
            r.waveform.peaks@ =~= Seq::<u32>::empty(),
            !r.is_live,
    {
        LiveAnalysisData {
            pitch: PitchResult { frequency: 0, confidence: 0 },
            transients: Vec::new(),
            waveform: WaveformSummary { peaks: Vec::new() },
            is_live: false,
        }
    }
}

/// The enable/disable calls the driver owes the engine for a session's
/// analysis intents, in the order the original requests were made.
#[derive(Clone, Copy, Debug, PartialEq, Eq, Structural)]
pub struct AnalysisCommands {
    pub enable: bool,
    pub disable: bool,
}

/// Consumes a session's analysis toggles: enabling turns the mirror live,
/// disabling turns it off, and a disable issued together with an enable
/// wins, the disable stage running after the enable stage.
pub fn live_analysis_control_system(s: &mut Session, analysis: &mut LiveAnalysisData) -> (cmds:
    AnalysisCommands)
    ensures
        *final(s) == (Session {
            enable_live_analysis: false,
            disable_live_analysis: false,
            ..*old(s)
        }),
        cmds == (AnalysisCommands {
            enable: old(s).enable_live_analysis,
            disable: old(s).disable_live_analysis,
        }),
        final(analysis).is_live == (if old(s).disable_live_analysis {
            false
        } else if old(s).enable_live_analysis {
            true
        } else {
            old(analysis).is_live
        }),
        final(analysis).pitch == old(analysis).pitch,
        final(analysis).transients == old(analysis).transients,
        final(analysis).waveform == old(analysis).waveform,
{
    let enable = s.enable_live_analysis;
    let disable = s.disable_live_analysis;
    s.enable_live_analysis = false;
    s.disable_live_analysis = false;
    if enable {
        analysis.is_live = true;
    }
    if disable {
        analysis.is_live = false;
    }
    AnalysisCommands { enable, disable }
}

/// What the driver read from the engine's analysis accessor this tick.
#[derive(Debug, Clone, PartialEq, Eq)]
pub struct AnalysisSnapshot {
    pub pitch: PitchResult,
    pub transients: Vec<Transient>,
    pub waveform: WaveformSummary,
}

/// Replaces the mirrored analysis results wholesale while the mirror is
/// live; a mirror that is off, or a missing engine, changes nothing.
pub fn live_analysis_sync_system(analysis: &mut LiveAnalysisData, snapshot: Option<AnalysisSnapshot>)
    ensures
        !old(analysis).is_live ==> *final(analysis) == *old(analysis),
        snapshot is None ==> *final(analysis) == *old(analysis),
        (old(analysis).is_live && snapshot is Some) ==> *final(analysis) == (LiveAnalysisData {
            pitch: (snapshot->0).pitch,
            transients: (snapshot->0).transients,
            waveform: (snapshot->0).waveform,
            is_live: old(analysis).is_live,
        }),
{
    if !analysis.is_live {
        return ;
    }
    let a = match snapshot {
        Some(a) => a,
        None => {
            return ;
        },
    };
    analysis.pitch = a.pitch;
    analysis.transients = a.transients;
    analysis.waveform = a.waveform;
}

} // verus!
