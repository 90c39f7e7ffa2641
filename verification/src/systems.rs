//! The per-tick stages: trigger dispatch and node lifecycle, parameter
//! sync, spatial sync, plugin lifecycle, recording, and cleanup.
//!
//! Each stage is a transition on one session.  The engine's part of the
//! work — building a unit, polling a node, detecting a crash — reaches a
//! stage as a plain outcome value, and the stage returns the commands the
//! driver must hand back to the engine.  Each executable stage is pinned to
//! a spec-level transition function; the laws at the end of the file are
//! proved about those transitions.

use vstd::prelude::*;

use crate::NodeId;
use crate::attenuation::attenuation_gain;
use crate::attenuation::compute_attenuation;
use crate::components::AudioEmitter;
use crate::components::AudioPlaybackState;
use crate::components::AutomationLaneEmitter;
use crate::components::PluginEmitter;
use crate::components::RecordingActive;
use crate::components::StartRecording;
use crate::components::TimeStretchControl;
use crate::math::is_isqrt;
use crate::math::vector_magnitude;
use crate::session::FailureReport;
use crate::session::Intent;
use crate::session::Session;
use crate::session::SessionStore;

verus! {

/// The payload the engine hands back when a recording stops; opaque to the
/// control plane, which only stores and forwards it.
#[derive(Clone, Copy, Debug, PartialEq, Eq, Structural)]
pub struct RecordedData {
    pub token: u64,
}

/// Holds the recorded data after a recording session completes.  Calling
/// code observes and consumes it.
#[derive(Clone, Copy, Debug, PartialEq, Eq, Structural)]
pub struct RecordingResult(pub RecordedData);

/// What the engine answered when the dispatcher asked it to build a
/// sampler unit for a play intent.
#[derive(Debug, Clone, PartialEq, Eq)]
pub enum BuildOutcome {
    /// Prerequisite data not ready (the source is still decoding); the
    /// intent stays in place and is retried next tick.
    Deferred,
    /// The unit is in the graph under `node_id`.  When the intent carried a
    /// time-stretch companion, the unit was wrapped and `stretch_control`
    /// names the lock-free control pair.
    Built { node_id: NodeId, stretch_control: Option<TimeStretchControl> },
    /// Permanent construction failure; the intent is discarded and the
    /// failure reported.
    Failed { reason: String },
}

/// What the engine answered for a node-creating intent with no companion
/// control (soundfont, neural synth, neural effect).
#[derive(Debug, Clone, PartialEq, Eq)]
pub enum NodeOutcome {
    Deferred,
    Built(NodeId),
    Failed(String),
}

/// A gain write the driver performs through a lock-free scalar.
#[derive(Clone, Copy, Debug, PartialEq, Eq, Structural)]
pub struct GainCommand {
    pub node_id: NodeId,
    /// Thousandths.
    pub gain: u32,
}

/// A write of both stretch parameters to a lock-free control pair.
#[derive(Clone, Copy, Debug, PartialEq, Eq, Structural)]
pub struct StretchWrite {
    pub control: u64,
    pub stretch_factor: u32,
    pub pitch_cents: i32,
}

// ---------------------------------------------------------------------
// Trigger dispatch: sample playback
// ---------------------------------------------------------------------

/// Whether the playback dispatcher has work on this session.
pub open spec fn playback_pending(s: Session) -> bool {
    s.intent matches Some(Intent::PlayAudio(_))
}

/// The `auto_despawn` flag of the pending play intent.
pub open spec fn pending_auto_despawn(s: Session) -> bool {
    s.intent matches Some(Intent::PlayAudio(p)) && p.auto_despawn
}

/// The session after the playback dispatcher applies the engine's answer:
/// unchanged on deferral; on success the intent is gone, exactly one
/// emitter is live and playing; on failure the intent is gone and nothing
/// was installed.
pub open spec fn playback_dispatch_transition(s: Session, o: BuildOutcome) -> Session
    recommends
        playback_pending(s),
{
    match o {
        BuildOutcome::Deferred => s,
        BuildOutcome::Built { node_id, stretch_control } => Session {
            intent: None,
            emitter: Some(AudioEmitter { node_id }),
            playback: AudioPlaybackState::Playing,
            despawn_on_finish: s.despawn_on_finish || pending_auto_despawn(s),
            stretch_control: if stretch_control is Some {
                stretch_control
            } else {
                s.stretch_control
            },
            ..s
        },
        BuildOutcome::Failed { .. } => Session { intent: None, ..s },
    }
}

/// The failure surfaced by a dispatch outcome, if any.
pub open spec fn dispatch_report(s: Session, o: BuildOutcome) -> Option<FailureReport> {
    match o {
        BuildOutcome::Failed { reason } => Some(FailureReport { session: s.id, reason }),
        _ => None,
    }
}

/// What the dispatcher asks the engine to build for a play intent: the
/// sampler settings from the intent, and the time-stretch companion the
/// built unit must be wrapped with, exactly when the session carries one.
#[derive(Clone, Copy, Debug, PartialEq, Eq, Structural)]
pub struct SamplerRequest {
    pub source: crate::AssetId,
    pub looping: bool,
    /// Thousandths.
    pub gain: u32,
    /// Thousandths.
    pub speed: u32,
    pub stretch: Option<crate::components::TimeStretch>,
}

/// The build request a session's pending play intent amounts to, with the
/// stretch-wrap composition decided here: the unit is wrapped exactly when
/// a time-stretch companion coexists with the intent on the same session.
pub fn sampler_request(s: &Session) -> (r: Option<SamplerRequest>)
    ensures
        r == (match s.intent {
            Some(Intent::PlayAudio(p)) => Some(
                SamplerRequest {
                    source: p.source,
                    looping: p.looping,
                    gain: p.gain,
                    speed: p.speed,
                    stretch: s.time_stretch,
                },
            ),
            _ => None::<SamplerRequest>,
        }),
{
    match &s.intent {
        Some(Intent::PlayAudio(p)) => Some(
            SamplerRequest {
                source: p.source,
                looping: p.looping,
                gain: p.gain,
                speed: p.speed,
                stretch: s.time_stretch,
            },
        ),
        _ => None,
    }
}

/// Applies the engine's answer for a pending play intent, per
/// [`playback_dispatch_transition`].
pub fn audio_playback_system(s: &mut Session, outcome: BuildOutcome) -> (report: Option<
    FailureReport,
>)
    requires
        old(s).wf(),
        playback_pending(*old(s)),
    ensures
        *final(s) == playback_dispatch_transition(*old(s), outcome),
        report == dispatch_report(*old(s), outcome),
        final(s).wf(),
{
    match outcome {
        BuildOutcome::Deferred => None,
        BuildOutcome::Built { node_id, stretch_control } => {
            let auto = match &s.intent {
                Some(Intent::PlayAudio(p)) => p.auto_despawn,
                _ => false,
            };
            s.intent = None;
            s.emitter = Some(AudioEmitter { node_id });
            s.playback = AudioPlaybackState::Playing;
            if auto {
                s.despawn_on_finish = true;
            }
            if let Some(control) = stretch_control {
                s.stretch_control = Some(control);
            }
            None
        },
        BuildOutcome::Failed { reason } => {
            s.intent = None;
            Some(FailureReport { session: s.id, reason })
        },
    }
}

// ---------------------------------------------------------------------
// Parameter sync
// ---------------------------------------------------------------------

/// The gain write owed for a session whose volume changed since the last
/// tick: one write per dirty session with a live emitter, none otherwise.
pub open spec fn param_sync_command(s: Session) -> Option<GainCommand> {
    if s.volume_dirty && s.emitter is Some {
        Some(GainCommand { node_id: s.emitter->0.node_id, gain: s.volume.0 })
    } else {
        None
    }
}

/// Drains a session's volume change into a gain command.  The dirty flag
/// clears whether or not an emitter is live; writes are last-write-wins.
pub fn audio_parameter_sync_system(s: &mut Session) -> (cmd: Option<GainCommand>)
    ensures
        *final(s) == (Session { volume_dirty: false, ..*old(s) }),
        cmd == param_sync_command(*old(s)),
{
    let cmd = if s.volume_dirty {
        match &s.emitter {
            Some(e) => Some(GainCommand { node_id: e.node_id, gain: s.volume.0 }),
            None => None,
        }
    } else {
        None
    };
    s.volume_dirty = false;
    cmd
}

/// The stretch write owed for a session whose time-stretch configuration
/// changed and which owns a lock-free control pair.
pub open spec fn time_stretch_command(s: Session) -> Option<StretchWrite> {
    if s.time_stretch_dirty && s.time_stretch is Some && s.stretch_control is Some {
        Some(StretchWrite {
            control: s.stretch_control->0.control,
            stretch_factor: s.time_stretch->0.stretch_factor,
            pitch_cents: s.time_stretch->0.pitch_cents,
        })
    } else {
        None
    }
}

/// Drains a session's time-stretch change into a lock-free write.
pub fn time_stretch_sync_system(s: &mut Session) -> (w: Option<StretchWrite>)
    ensures
        *final(s) == (Session { time_stretch_dirty: false, ..*old(s) }),
        w == time_stretch_command(*old(s)),
{
    let w = if s.time_stretch_dirty {
        match (&s.time_stretch, &s.stretch_control) {
            (Some(ts), Some(c)) => Some(StretchWrite {
                control: c.control,
                stretch_factor: ts.stretch_factor,
                pitch_cents: ts.pitch_cents,
            }),
            _ => None,
        }
    } else {
        None
    };
    s.time_stretch_dirty = false;
    w
}

// ---------------------------------------------------------------------
// Cleanup
// ---------------------------------------------------------------------

/// The session after the cleanup stage sees the engine's playing poll:
/// a playing emitter whose node stopped becomes `Finished`, and a session
/// marked to despawn on finish is despawned with it.  `Finished` is never
/// left again.
pub open spec fn cleanup_transition(s: Session, is_playing: bool) -> Session {
    if s.emitter is Some && s.playback == AudioPlaybackState::Playing && !is_playing {
        Session {
            playback: AudioPlaybackState::Finished,
            despawned: s.despawned || s.despawn_on_finish,
            ..s
        }
    } else {
        s
    }
}

/// The node the cleanup stage removes from the graph, if any.
pub open spec fn cleanup_removal(s: Session, is_playing: bool) -> Option<NodeId> {
    if s.emitter is Some && s.playback == AudioPlaybackState::Playing && !is_playing {
        Some(s.emitter->0.node_id)
    } else {
        None
    }
}

/// Polls one session against the engine's answer to "is this node still
/// playing", per [`cleanup_transition`]; returns the node to remove.
pub fn audio_cleanup_system(s: &mut Session, is_playing: bool) -> (removal: Option<NodeId>)
    ensures
        *final(s) == cleanup_transition(*old(s), is_playing),
        removal == cleanup_removal(*old(s), is_playing),
        final(s).wf() == old(s).wf(),
{
    let playing_now = match s.playback {
        AudioPlaybackState::Playing => true,
        _ => false,
    };
    match &s.emitter {
        Some(e) => {
            if playing_now && !is_playing {
                let node = e.node_id;
                s.playback = AudioPlaybackState::Finished;
                if s.despawn_on_finish {
                    s.despawned = true;
                }
                Some(node)
            } else {
                None
            }
        },
        None => None,
    }
}

// ---------------------------------------------------------------------
// Spatial sync
// ---------------------------------------------------------------------

/// Everything the driver must push to the engine for one spatial emitter
/// on one tick: the listener-relative vector for the panner (the driver
/// turns it into azimuth and elevation), and the attenuation gain for the
/// emitter node.  `distance` is the vector's magnitude, in thousandths of
/// a world unit.
#[derive(Clone, Copy, Debug, PartialEq, Eq, Structural)]
pub struct SpatialUpdate {
    pub panner: NodeId,
    pub x: i32,
    pub y: i32,
    pub z: i32,
    pub distance: u32,
    pub gain: GainCommand,
}

/// Whether the driver must ask the engine for a panner node for this
/// session before the spatial stage can run it.
pub fn needs_panner(s: &Session) -> (r: bool)
    ensures
        r == (s.emitter is Some && (s.spatial matches Some(sp) && sp.panner_node_id is None)),
{
    match (&s.emitter, &s.spatial) {
        (Some(_), Some(sp)) => sp.panner_node_id.is_none(),
        _ => false,
    }
}

/// The session after the spatial stage: a panner the engine just created
/// is cached; a session that still has none (creation failed, or was not
/// attempted) is unchanged and retried next tick.
pub open spec fn spatial_transition(s: Session, panner_created: Option<NodeId>) -> Session {
    match (s.emitter, s.spatial, panner_created) {
        (Some(_), Some(sp), Some(p)) => {
            if sp.panner_node_id is None {
                Session {
                    spatial: Some(
                        crate::components::SpatialAudio { panner_node_id: Some(p), ..sp },
                    ),
                    ..s
                }
            } else {
                s
            }
        },
        _ => s,
    }
}

/// Synchronizes one spatial emitter: caches a newly created panner and
/// computes this tick's position and attenuation-gain commands from the
/// listener-relative vector `(x, y, z)` (thousandths of world units).
///
/// The gain is exactly [`attenuation_gain`] of the vector's magnitude
/// under the session's model, written to the emitter's node; it is zero at
/// and beyond the configured maximum distance.
pub fn spatial_audio_sync_system(
    s: &mut Session,
    panner_created: Option<NodeId>,
    x: i32,
    y: i32,
    z: i32,
) -> (update: Option<SpatialUpdate>)
    requires
        old(s).spatial matches Some(sp) ==> sp.ref_distance >= 1,
    ensures
        *final(s) == spatial_transition(*old(s), panner_created),
        match *final(s) {
            Session { emitter: Some(e), spatial: Some(sp), .. } => {
                if sp.panner_node_id is Some {
                    &&& update matches Some(u)
                    &&& u.panner == sp.panner_node_id->0
                    &&& u.x == x && u.y == y && u.z == z
                    &&& is_isqrt(
                        (x as int) * (x as int) + (y as int) * (y as int) + (z as int) * (z as int),
                        u.distance as int,
                    )
                    &&& u.gain == (GainCommand {
                        node_id: e.node_id,
                        gain: attenuation_gain(
                            sp.attenuation,
                            u.distance as int,
                            sp.ref_distance as int,
                            sp.max_distance as int,
                        ) as u32,
                    })
                } else {
                    update is None
                }
            },
            _ => update is None,
        },
{
    let emitter_node: NodeId = match &s.emitter {
        Some(e) => e.node_id,
        None => {
            return None;
        },
    };
    let sp = match &s.spatial {
        Some(sp) => *sp,
        None => {
            return None;
        },
    };
    let panner: NodeId = match sp.panner_node_id {
        Some(p) => p,
        None => {
            match panner_created {
                Some(p) => {
                    s.spatial = Some(
                        crate::components::SpatialAudio { panner_node_id: Some(p), ..sp },
                    );
                    p
                },
                None => {
                    return None;
                },
            }
        },
    };
    let distance = vector_magnitude(x, y, z);
    let gain = compute_attenuation(distance, sp.attenuation, sp.ref_distance, sp.max_distance);
    Some(
        SpatialUpdate {
            panner,
            x,
            y,
            z,
            distance,
            gain: GainCommand { node_id: emitter_node, gain },
        },
    )
}

// ---------------------------------------------------------------------
// Trigger dispatch: soundfont and neural units
// ---------------------------------------------------------------------

/// The session after a dispatcher applies a plain node outcome to a
/// pending intent: deferral leaves it, success swaps the intent for an
/// emitter, failure removes the intent and installs nothing.
pub open spec fn node_dispatch_transition(s: Session, o: NodeOutcome) -> Session {
    match o {
        NodeOutcome::Deferred => s,
        NodeOutcome::Built(node_id) => Session {
            intent: None,
            emitter: Some(AudioEmitter { node_id }),
            ..s
        },
        NodeOutcome::Failed(_) => Session { intent: None, ..s },
    }
}

/// The failure surfaced by a plain node outcome, if any.
pub open spec fn node_dispatch_report(s: Session, o: NodeOutcome) -> Option<FailureReport> {
    match o {
        NodeOutcome::Failed(reason) => Some(FailureReport { session: s.id, reason }),
        _ => None,
    }
}

/// Applies the engine's answer for a pending soundfont intent, per
/// [`node_dispatch_transition`].
pub fn soundfont_playback_system(s: &mut Session, outcome: NodeOutcome) -> (report: Option<
    FailureReport,
>)
    requires
        old(s).wf(),
        old(s).intent matches Some(Intent::PlaySoundFont(_)),
    ensures
        *final(s) == node_dispatch_transition(*old(s), outcome),
        report == node_dispatch_report(*old(s), outcome),
        final(s).wf(),
{
    apply_node_outcome(s, outcome)
}

/// Applies the engine's answer for a pending neural-synth intent, per
/// [`node_dispatch_transition`].
pub fn neural_synth_playback_system(s: &mut Session, outcome: NodeOutcome) -> (report: Option<
    FailureReport,
>)
    requires
        old(s).wf(),
        old(s).intent matches Some(Intent::PlayNeuralSynth(_)),
    ensures
        *final(s) == node_dispatch_transition(*old(s), outcome),
        report == node_dispatch_report(*old(s), outcome),
        final(s).wf(),
{
    apply_node_outcome(s, outcome)
}

/// Applies the engine's answer for a pending neural-effect intent, per
/// [`node_dispatch_transition`].
pub fn neural_effect_playback_system(s: &mut Session, outcome: NodeOutcome) -> (report: Option<
    FailureReport,
>)
    requires
        old(s).wf(),
        old(s).intent matches Some(Intent::PlayNeuralEffect(_)),
    ensures
        *final(s) == node_dispatch_transition(*old(s), outcome),
        report == node_dispatch_report(*old(s), outcome),
        final(s).wf(),
{
    apply_node_outcome(s, outcome)
}

/// Shared body of the plain node dispatchers.
fn apply_node_outcome(s: &mut Session, outcome: NodeOutcome) -> (report: Option<FailureReport>)
    requires
        old(s).wf(),
        old(s).intent is Some,
    ensures
        *final(s) == node_dispatch_transition(*old(s), outcome),
        report == node_dispatch_report(*old(s), outcome),
        final(s).wf(),
{
    match outcome {
        NodeOutcome::Deferred => None,
        NodeOutcome::Built(node_id) => {
            s.intent = None;
            s.emitter = Some(AudioEmitter { node_id });
            None
        },
        NodeOutcome::Failed(reason) => {
            s.intent = None;
            Some(FailureReport { session: s.id, reason })
        },
    }
}

// ---------------------------------------------------------------------
// Trigger dispatch: effect units and automation lanes
// ---------------------------------------------------------------------

/// Consumes a pending compressor intent: the engine has added the unit
/// under `node_id`, and the session becomes its emitter.
pub fn dsp_compressor_system(s: &mut Session, node_id: NodeId)
    requires
        old(s).wf(),
        old(s).intent matches Some(Intent::AddCompressor(_)),
    ensures
        *final(s) == (Session {
            intent: None,
            emitter: Some(AudioEmitter { node_id }),
            ..*old(s)
        }),
        final(s).wf(),
{
    s.intent = None;
    s.emitter = Some(AudioEmitter { node_id });
}

/// Consumes a pending gate intent, as [`dsp_compressor_system`] does.
pub fn dsp_gate_system(s: &mut Session, node_id: NodeId)
    requires
        old(s).wf(),
        old(s).intent matches Some(Intent::AddGate(_)),
    ensures
        *final(s) == (Session {
            intent: None,
            emitter: Some(AudioEmitter { node_id }),
            ..*old(s)
        }),
        final(s).wf(),
{
    s.intent = None;
    s.emitter = Some(AudioEmitter { node_id });
}

/// Consumes a pending LFO intent, as [`dsp_compressor_system`] does.
pub fn dsp_lfo_system(s: &mut Session, node_id: NodeId)
    requires
        old(s).wf(),
        old(s).intent matches Some(Intent::AddLfo(_)),
    ensures
        *final(s) == (Session {
            intent: None,
            emitter: Some(AudioEmitter { node_id }),
            ..*old(s)
        }),
        final(s).wf(),
{
    s.intent = None;
    s.emitter = Some(AudioEmitter { node_id });
}

/// Consumes a pending automation-lane intent.  The lane keeps its own
/// marker: it is a control node, not an audio emitter.
pub fn automation_lane_system(s: &mut Session, node_id: NodeId)
    requires
        old(s).wf(),
        old(s).intent matches Some(Intent::AddAutomationLane(_)),
    ensures
        *final(s) == (Session {
            intent: None,
            automation_lane: Some(AutomationLaneEmitter { node_id }),
            ..*old(s)
        }),
        final(s).wf(),
{
    s.intent = None;
    s.automation_lane = Some(AutomationLaneEmitter { node_id });
}

// ---------------------------------------------------------------------
// Plugin lifecycle
// ---------------------------------------------------------------------

/// What happened when the driver tried to satisfy a load-plugin intent.
#[derive(Debug, Clone, PartialEq, Eq)]
pub enum PluginLoadOutcome {
    /// The path's extension names no known plugin format; this is a
    /// permanent failure decided before the engine is asked anything.
    UnsupportedFormat,
    /// The plugin is in the graph with a control handle attached.
    Built { node_id: NodeId, handle: u64 },
    /// The engine's builder failed; permanent.
    LoadFailed { reason: String },
}

/// The session after the plugin loader applies an outcome: the intent is
/// always consumed; only success installs the emitter and control handle.
pub open spec fn plugin_load_transition(s: Session, o: PluginLoadOutcome) -> Session {
    match o {
        PluginLoadOutcome::Built { node_id, handle } => Session {
            intent: None,
            emitter: Some(AudioEmitter { node_id }),
            plugin: Some(PluginEmitter { handle }),
            ..s
        },
        _ => Session { intent: None, ..s },
    }
}

/// Applies the outcome of a load-plugin intent, per
/// [`plugin_load_transition`].  A failed load leaves no partial node: the
/// intent vanishes and no handle is installed.  Every non-built outcome is
/// reported: an unrecognized extension under a fixed reason, a builder
/// failure under the engine's reason.
pub fn plugin_load_system(s: &mut Session, outcome: PluginLoadOutcome) -> (report: Option<
    FailureReport,
>)
    requires
        old(s).wf(),
        old(s).intent matches Some(Intent::LoadPlugin(_)),
        old(s).intent matches Some(Intent::LoadPlugin(lp)) ==> ((outcome
            is UnsupportedFormat) <==> crate::paths::plugin_kind_of(lp.path@) is None),
    ensures
        *final(s) == plugin_load_transition(*old(s), outcome),
        final(s).wf(),
        match outcome {
            PluginLoadOutcome::Built { .. } => report is None,
            PluginLoadOutcome::UnsupportedFormat => {
                report matches Some(r) && r.session == old(s).id
                    && r.reason@ == "unsupported plugin format"@
            },
            PluginLoadOutcome::LoadFailed { reason } => {
                report == Some(FailureReport { session: old(s).id, reason })
            },
        },
{
    match outcome {
        PluginLoadOutcome::Built { node_id, handle } => {
            s.intent = None;
            s.emitter = Some(AudioEmitter { node_id });
            s.plugin = Some(PluginEmitter { handle });
            None
        },
        PluginLoadOutcome::UnsupportedFormat => {
            s.intent = None;
            let reason = String::from_str("unsupported plugin format");
            Some(FailureReport { session: s.id, reason })
        },
        PluginLoadOutcome::LoadFailed { reason } => {
            s.intent = None;
            Some(FailureReport { session: s.id, reason })
        },
    }
}

/// The control handle owed an idle tick this tick: plugins whose editor
/// is open receive one, so their GUIs can redraw.
pub fn plugin_editor_idle_system(s: &Session) -> (idle: Option<u64>)
    ensures
        idle == (if s.plugin is Some && s.plugin_editor_open {
            Some(s.plugin->0.handle)
        } else {
            None::<u64>
        }),
{
    if s.plugin_editor_open {
        match &s.plugin {
            Some(p) => Some(p.handle),
            None => None,
        }
    } else {
        None
    }
}

/// The session after the crash detector sees the polled crash flag: a
/// crashed plugin loses its emitter, its control handle and its editor
/// marker in one step; the session object itself survives.
pub open spec fn plugin_crash_transition(s: Session, crashed: bool) -> Session {
    if crashed && s.plugin is Some {
        Session { emitter: None, plugin: None, plugin_editor_open: false, ..s }
    } else {
        s
    }
}

/// The node the crash detector removes from the graph, if any.
pub open spec fn plugin_crash_removal(s: Session, crashed: bool) -> Option<NodeId> {
    if crashed && s.plugin is Some && s.emitter is Some {
        Some(s.emitter->0.node_id)
    } else {
        None
    }
}

/// Applies the polled crash flag to a plugin session, per
/// [`plugin_crash_transition`]; returns the node to remove from the graph.
pub fn plugin_crash_detect_system(s: &mut Session, crashed: bool) -> (removal: Option<NodeId>)
    requires
        old(s).wf(),
    ensures
        *final(s) == plugin_crash_transition(*old(s), crashed),
        removal == plugin_crash_removal(*old(s), crashed),
        final(s).wf(),
{
    if crashed && s.plugin.is_some() {
        let removal = match &s.emitter {
            Some(e) => Some(e.node_id),
            None => None,
        };
        s.emitter = None;
        s.plugin = None;
        s.plugin_editor_open = false;
        removal
    } else {
        None
    }
}

// ---------------------------------------------------------------------
// Recording
// ---------------------------------------------------------------------

/// The engine's answer to a start-recording request.
#[derive(Debug, Clone, PartialEq, Eq)]
pub enum RecordingStartOutcome {
    Started,
    StartFailed { reason: String },
}

/// The engine's answer to a stop-recording request.
#[derive(Debug, Clone, PartialEq, Eq)]
pub enum RecordingStopOutcome {
    Stopped { data: RecordedData },
    StopFailed { reason: String },
}

/// The session after the recording starter applies the engine's answer:
/// the start intent is consumed either way; success installs the active
/// marker with the intent's channel, source and mode, failure installs
/// nothing and is not retried.
pub open spec fn recording_start_transition(s: Session, o: RecordingStartOutcome) -> Session
    recommends
        s.start_recording is Some,
{
    match o {
        RecordingStartOutcome::Started => Session {
            start_recording: None,
            recording_active: Some(
                RecordingActive {
                    channel_index: s.start_recording->0.channel_index,
                    source: s.start_recording->0.source,
                    mode: s.start_recording->0.mode,
                },
            ),
            ..s
        },
        RecordingStartOutcome::StartFailed { .. } => Session { start_recording: None, ..s },
    }
}

/// The failure surfaced by a start outcome, if any.
pub open spec fn recording_start_report(s: Session, o: RecordingStartOutcome) -> Option<
    FailureReport,
> {
    match o {
        RecordingStartOutcome::StartFailed { reason } => Some(
            FailureReport { session: s.id, reason },
        ),
        RecordingStartOutcome::Started => None,
    }
}

/// The pending start-recording request the driver must hand to the engine
/// together with the current transport beat.
pub fn recording_request(s: &Session) -> (r: Option<&StartRecording>)
    ensures
        match r {
            Some(req) => s.start_recording == Some(*req),
            None => s.start_recording is None,
        },
{
    s.start_recording.as_ref()
}

/// Applies the engine's answer for a pending start-recording intent, per
/// [`recording_start_transition`].
pub fn recording_start_system(s: &mut Session, outcome: RecordingStartOutcome) -> (report: Option<
    FailureReport,
>)
    requires
        old(s).start_recording is Some,
    ensures
        *final(s) == recording_start_transition(*old(s), outcome),
        report == recording_start_report(*old(s), outcome),
{
    let start = s.start_recording.take().unwrap();
    match outcome {
        RecordingStartOutcome::Started => {
            s.recording_active = Some(
                RecordingActive {
                    channel_index: start.channel_index,
                    source: start.source,
                    mode: start.mode,
                },
            );
            None
        },
        RecordingStartOutcome::StartFailed { reason } => Some(
            FailureReport { session: s.id, reason },
        ),
    }
}

/// A session with its active-recording marker removed if it records on
/// `channel`.
pub open spec fn clear_active_on(s: Session, channel: usize) -> Session {
    if s.recording_active matches Some(a) && a.channel_index == channel {
        Session { recording_active: None, ..s }
    } else {
        s
    }
}

/// One session after a successful stop on `channel`: every active marker
/// for that channel is removed, and the stopping session (`stopping`)
/// additionally trades its stop intent for the terminal result payload.
pub open spec fn recording_stop_apply(
    s: Session,
    channel: usize,
    stopping: bool,
    data: RecordedData,
) -> Session {
    let cleared = clear_active_on(s, channel);
    if stopping {
        Session {
            stop_recording: None,
            recording_result: Some(RecordingResult(data)),
            ..cleared
        }
    } else {
        cleared
    }
}

/// Applies the engine's answer for the stop-recording intent held by
/// session `i`.  On success, the active marker for the stopped channel is
/// removed wherever it sits and session `i` carries the result payload;
/// on failure only the stop intent is discarded — active markers stay, and
/// a new stop intent may retry the operation.
pub fn recording_stop_system(
    store: &mut SessionStore,
    i: usize,
    outcome: RecordingStopOutcome,
) -> (report: Option<FailureReport>)
    requires
        old(store).wf(),
        i < old(store).sessions@.len(),
        old(store).sessions@[i as int].stop_recording is Some,
    ensures
        final(store).wf(),
        final(store).next_id == old(store).next_id,
        final(store).reports == old(store).reports,
        final(store).sessions@.len() == old(store).sessions@.len(),
        match outcome {
            RecordingStopOutcome::Stopped { data } => {
                &&& report is None
                &&& forall|k: int| 0 <= k < old(store).sessions@.len()
                    ==> final(store).sessions@[k] == recording_stop_apply(
                        old(store).sessions@[k],
                        old(store).sessions@[i as int].stop_recording->0.channel_index,
                        k == i,
                        data,
                    )
            },
            RecordingStopOutcome::StopFailed { reason } => {
                &&& report == Some(
                    FailureReport { session: old(store).sessions@[i as int].id, reason },
                )
                &&& final(store).sessions@ == old(store).sessions@.update(
                    i as int,
                    Session { stop_recording: None, ..old(store).sessions@[i as int] },
                )
            },
        },
{
    match outcome {
        RecordingStopOutcome::Stopped { data } => {
            let channel = {
                let s = store.session_at(i);
                s.stop_recording.as_ref().unwrap().channel_index
            };
            let ghost orig = store.sessions@;
            let n = store.len();
            let mut k: usize = 0;
            while k < n
                invariant
                    n == orig.len(),
                    i < n,
                    k <= n,
                    store.sessions@.len() == n,
                    store.next_id == old(store).next_id,
                    store.reports == old(store).reports,
                    channel == orig[i as int].stop_recording->0.channel_index,
                    forall|m: int| 0 <= m < k
                        ==> store.sessions@[m] == clear_active_on(orig[m], channel),
                    forall|m: int| k <= m < n ==> store.sessions@[m] == orig[m],
                decreases n - k,
            {
                let clear = {
                    let s = store.session_at(k);
                    match &s.recording_active {
                        Some(a) => a.channel_index == channel,
                        None => false,
                    }
                };
                if clear {
                    let s = store.session_at_mut(k);
                    s.recording_active = None;
                }
                k = k + 1;
            }
            let s = store.session_at_mut(i);
            s.stop_recording = None;
            s.recording_result = Some(RecordingResult(data));
            proof {
                assert forall|m: int| 0 <= m < n implies store.sessions@[m]
                    == recording_stop_apply(orig[m], channel, m == i, data) by {
                }
            }
            None
        },
        RecordingStopOutcome::StopFailed { reason } => {
            let id = {
                let s = store.session_at_mut(i);
                s.stop_recording = None;
                s.id
            };
            Some(FailureReport { session: id, reason })
        },
    }
}

// ---------------------------------------------------------------------
// Laws
// ---------------------------------------------------------------------

/// One tick resolves a pending play intent once its prerequisites are
/// satisfied: a deferral leaves the intent in place for the next tick, and
/// any other answer removes it, leaving either exactly one live emitter on
/// the session or a reported failure — never both absent.
pub proof fn lemma_dispatch_resolves(s: Session, o: BuildOutcome)
    requires
        s.wf(),
        playback_pending(s),
    ensures
        o is Deferred ==> playback_dispatch_transition(s, o) == s,
        !(o is Deferred) ==> playback_dispatch_transition(s, o).intent is None,
        (playback_dispatch_transition(s, o).emitter is Some) <==> (o is Built),
        (dispatch_report(s, o) is Some) <==> (o is Failed),
        !(o is Deferred) ==> (playback_dispatch_transition(s, o).emitter is Some
            || dispatch_report(s, o) is Some),
{
}

/// No session ever holds two emitter handles.  A session can hold at most
/// one by construction; this law says the stages respect that discipline:
/// the dispatcher only ever installs an emitter on a session that has none
/// (its pending intent excludes one), and the cleanup and crash stages
/// never install any — they keep or remove what is there.
pub proof fn lemma_at_most_one_emitter(s: Session, is_playing: bool, crashed: bool)
    requires
        s.wf(),
    ensures
        playback_pending(s) ==> s.emitter is None,
        cleanup_transition(s, is_playing).emitter == s.emitter,
        plugin_crash_transition(s, crashed).emitter is Some ==> plugin_crash_transition(
            s,
            crashed,
        ).emitter == s.emitter,
{
}

/// Once a session's playback reaches `Finished`, no later cleanup poll
/// brings it back: the cleanup transition is the only stage that touches
/// the playback state of a live emitter, and it maps `Finished` to
/// `Finished` whatever the engine answers.
pub proof fn lemma_finished_monotonic(s: Session, is_playing: bool)
    ensures
        s.playback == AudioPlaybackState::Finished ==> cleanup_transition(
            s,
            is_playing,
        ).playback == AudioPlaybackState::Finished,
        cleanup_transition(s, is_playing).playback == AudioPlaybackState::Playing
            ==> s.playback == AudioPlaybackState::Playing,
{
}

/// A plugin session whose crash flag is seen true is stripped in one step:
/// emitter, control handle and editor marker are all gone, its graph node
/// is handed back for removal, and the session object itself survives.
pub proof fn lemma_crash_strips_session(s: Session)
    requires
        s.plugin is Some,
    ensures
        plugin_crash_transition(s, true).emitter is None,
        plugin_crash_transition(s, true).plugin is None,
        !plugin_crash_transition(s, true).plugin_editor_open,
        plugin_crash_transition(s, true).id == s.id,
        s.emitter matches Some(e) ==> plugin_crash_removal(s, true) == Some(e.node_id),
{
}

/// A successful stop on one channel has no side effect on any session
/// that does not record on that channel, beyond the stopping session's own
/// intent-for-result trade.
pub proof fn lemma_stop_touches_only_channel(
    s: Session,
    channel: usize,
    data: RecordedData,
)
    requires
        !(s.recording_active matches Some(a) && a.channel_index == channel),
    ensures
        recording_stop_apply(s, channel, false, data) == s,
{
}

} // verus!
