//! One scheduler tick over a single session: the stages run in dependency
//! order — node-creating dispatch first, parameter sync second, polling and
//! cleanup last — so a node created this tick is visible to the sync and
//! cleanup stages of the same tick.
//!
//! The driver gathers the engine's answers for the session into a
//! [`SessionTickInput`], runs [`session_tick`], performs the returned
//! commands, and appends the returned reports.

use vstd::prelude::*;

use crate::NodeId;
use crate::components::AudioEmitter;
use crate::components::AutomationLaneEmitter;
use crate::components::StartExport;
use crate::export_systems::ExportInProgress;
use crate::export_systems::ExportPhase;
use crate::export_systems::ExportStatus;
use crate::export_systems::export_poll_system;
use crate::export_systems::export_poll_transition;
use crate::export_systems::export_start_system;
use crate::audio_input::AudioInputCommands;
use crate::audio_input::audio_input_commands;
use crate::audio_input::audio_input_control_system;
use crate::midi::components::SendMidi;
use crate::midi::components::SendMidi2;
use crate::midi::systems::midi2_send_system;
use crate::midi::systems::midi_send_system;
use crate::paths::plugin_kind_of;
use crate::session::FailureReport;
use crate::session::Intent;
use crate::session::Session;
use crate::systems::BuildOutcome;
use crate::systems::GainCommand;
use crate::systems::NodeOutcome;
use crate::systems::PluginLoadOutcome;
use crate::systems::RecordingStartOutcome;
use crate::systems::SpatialUpdate;
use crate::systems::StretchWrite;
use crate::systems::audio_cleanup_system;
use crate::systems::audio_parameter_sync_system;
use crate::systems::audio_playback_system;
use crate::systems::automation_lane_system;
use crate::systems::cleanup_removal;
use crate::systems::cleanup_transition;
use crate::systems::dispatch_report;
use crate::systems::dsp_compressor_system;
use crate::systems::dsp_gate_system;
use crate::systems::dsp_lfo_system;
use crate::systems::neural_effect_playback_system;
use crate::systems::neural_synth_playback_system;
use crate::systems::node_dispatch_report;
use crate::systems::node_dispatch_transition;
use crate::systems::param_sync_command;
use crate::systems::playback_dispatch_transition;
use crate::systems::plugin_crash_detect_system;
use crate::systems::plugin_crash_removal;
use crate::systems::plugin_crash_transition;
use crate::systems::plugin_editor_idle_system;
use crate::systems::plugin_load_system;
use crate::systems::plugin_load_transition;
use crate::systems::recording_start_report;
use crate::systems::recording_start_system;
use crate::systems::recording_start_transition;
use crate::systems::soundfont_playback_system;
use crate::systems::spatial_audio_sync_system;
use crate::systems::spatial_transition;
use crate::systems::time_stretch_command;
use crate::systems::time_stretch_sync_system;

verus! {

/// The engine's answers for one session on one tick.  Each dispatch field
/// is present exactly when the session holds the matching intent; the
/// driver reads the intent to know what to build, so it has each answer
/// exactly where one is owed.
pub struct SessionTickInput {
    pub sampler_outcome: Option<BuildOutcome>,
    pub node_outcome: Option<NodeOutcome>,
    pub effect_node: Option<NodeId>,
    pub plugin_outcome: Option<PluginLoadOutcome>,
    /// A panner node created for this session this tick, if the driver was
    /// asked for one.
    pub panner_created: Option<NodeId>,
    /// Listener-relative position, thousandths of world units.
    pub relative_x: i32,
    pub relative_y: i32,
    pub relative_z: i32,
    pub recording_outcome: Option<RecordingStartOutcome>,
    /// The progress handle of an export job started this tick.
    pub export_handle: Option<u64>,
    /// This tick's poll of the session's running export, if it has one.
    pub export_status: Option<ExportStatus>,
    pub plugin_crashed: bool,
    pub is_playing: bool,
}

/// The intent kinds answered by a plain node outcome.
pub open spec fn wants_node(s: Session) -> bool {
    ||| s.intent matches Some(Intent::PlaySoundFont(_))
    ||| s.intent matches Some(Intent::PlayNeuralSynth(_))
    ||| s.intent matches Some(Intent::PlayNeuralEffect(_))
}

/// The intent kinds answered by a bare node id.
pub open spec fn wants_effect(s: Session) -> bool {
    ||| s.intent matches Some(Intent::AddCompressor(_))
    ||| s.intent matches Some(Intent::AddGate(_))
    ||| s.intent matches Some(Intent::AddLfo(_))
    ||| s.intent matches Some(Intent::AddAutomationLane(_))
}

/// The input carries an answer exactly where the session holds the
/// matching request, and the plugin answer agrees with the path's format.
pub open spec fn tick_input_consistent(s: Session, input: SessionTickInput) -> bool {
    &&& (input.sampler_outcome is Some) == (s.intent matches Some(Intent::PlayAudio(_)))
    &&& (input.node_outcome is Some) == wants_node(s)
    &&& (input.effect_node is Some) == wants_effect(s)
    &&& (input.plugin_outcome is Some) == (s.intent matches Some(Intent::LoadPlugin(_)))
    &&& s.intent matches Some(Intent::LoadPlugin(lp)) ==> ((input.plugin_outcome->0
        is UnsupportedFormat) <==> plugin_kind_of(lp.path@) is None)
    &&& (input.recording_outcome is Some) == (s.start_recording is Some)
    &&& (input.export_handle is Some) == (s.start_export is Some)
    &&& s.spatial matches Some(sp) ==> sp.ref_distance >= 1
}

/// The session after the dispatch stage consumed its pending intent, if
/// any, under the matching answer.
#[verifier::opaque]
pub open spec fn dispatch_phase(s: Session, input: SessionTickInput) -> Session {
    match s.intent {
        Some(Intent::PlayAudio(_)) => playback_dispatch_transition(s, input.sampler_outcome->0),
        Some(Intent::PlaySoundFont(_)) => node_dispatch_transition(s, input.node_outcome->0),
        Some(Intent::PlayNeuralSynth(_)) => node_dispatch_transition(s, input.node_outcome->0),
        Some(Intent::PlayNeuralEffect(_)) => node_dispatch_transition(s, input.node_outcome->0),
        Some(Intent::AddCompressor(_)) => Session {
            intent: None,
            emitter: Some(AudioEmitter { node_id: input.effect_node->0 }),
            ..s
        },
        Some(Intent::AddGate(_)) => Session {
            intent: None,
            emitter: Some(AudioEmitter { node_id: input.effect_node->0 }),
            ..s
        },
        Some(Intent::AddLfo(_)) => Session {
            intent: None,
            emitter: Some(AudioEmitter { node_id: input.effect_node->0 }),
            ..s
        },
        Some(Intent::AddAutomationLane(_)) => Session {
            intent: None,
            automation_lane: Some(AutomationLaneEmitter { node_id: input.effect_node->0 }),
            ..s
        },
        Some(Intent::LoadPlugin(_)) => plugin_load_transition(s, input.plugin_outcome->0),
        None => s,
    }
}

/// The session after the parameter-sync stage drained the dirty flags.
pub open spec fn sync_phase(s: Session) -> Session {
    Session { volume_dirty: false, time_stretch_dirty: false, ..s }
}

/// The session after the one-shot consumers took the send and input
/// intents.
pub open spec fn drain_phase(s: Session) -> Session {
    Session {
        send_midi: None,
        send_midi2: None,
        enable_audio_input: None,
        disable_audio_input: false,
        ..s
    }
}

/// The session after the recording and export state machines ran: a
/// pending recording start is applied, a pending export start installs
/// the running job, and a running job absorbs this tick's poll.
#[verifier::opaque]
pub open spec fn machines_phase(
    s: Session,
    recording_outcome: Option<RecordingStartOutcome>,
    export_handle: Option<u64>,
    export_status: Option<ExportStatus>,
) -> Session {
    let recorded = if s.start_recording is Some {
        recording_start_transition(s, recording_outcome->0)
    } else {
        s
    };
    let exported = if recorded.start_export is Some {
        Session {
            start_export: None,
            export: ExportPhase::InProgress(ExportInProgress { handle: export_handle->0 }),
            ..recorded
        }
    } else {
        recorded
    };
    if export_status is Some {
        Session {
            export: export_poll_transition(exported.export, export_status->0),
            ..exported
        }
    } else {
        exported
    }
}

/// The session after everything up to crash detection.
pub open spec fn tick_pre_crash(s: Session, input: SessionTickInput) -> Session {
    machines_phase(
        drain_phase(spatial_transition(sync_phase(dispatch_phase(s, input)), input.panner_created)),
        input.recording_outcome,
        input.export_handle,
        input.export_status,
    )
}

/// The session after crash detection, before cleanup.
pub open spec fn tick_pre_cleanup(s: Session, input: SessionTickInput) -> Session {
    plugin_crash_transition(tick_pre_crash(s, input), input.plugin_crashed)
}

/// The whole tick: [`tick_pre_cleanup`] followed by the cleanup poll.
pub open spec fn session_tick_transition(s: Session, input: SessionTickInput) -> Session {
    cleanup_transition(tick_pre_cleanup(s, input), input.is_playing)
}

/// What the dispatch stage never touches: it consumes the intent and
/// installs handles, and leaves every other attribute of the session as
/// it was.
pub proof fn lemma_dispatch_phase_frame(s: Session, input: SessionTickInput)
    ensures
        dispatch_phase(s, input).id == s.id,
        dispatch_phase(s, input).volume == s.volume,
        dispatch_phase(s, input).volume_dirty == s.volume_dirty,
        dispatch_phase(s, input).time_stretch == s.time_stretch,
        dispatch_phase(s, input).time_stretch_dirty == s.time_stretch_dirty,
        dispatch_phase(s, input).spatial == s.spatial,
        dispatch_phase(s, input).midi_receiver == s.midi_receiver,
        dispatch_phase(s, input).mpe_receiver == s.mpe_receiver,
        dispatch_phase(s, input).send_midi == s.send_midi,
        dispatch_phase(s, input).send_midi2 == s.send_midi2,
        dispatch_phase(s, input).connect_midi_device == s.connect_midi_device,
        dispatch_phase(s, input).disconnect_midi_device == s.disconnect_midi_device,
        dispatch_phase(s, input).plugin_editor_open == s.plugin_editor_open,
        dispatch_phase(s, input).start_recording == s.start_recording,
        dispatch_phase(s, input).stop_recording == s.stop_recording,
        dispatch_phase(s, input).recording_active == s.recording_active,
        dispatch_phase(s, input).recording_result == s.recording_result,
        dispatch_phase(s, input).start_export == s.start_export,
        dispatch_phase(s, input).export == s.export,
        dispatch_phase(s, input).enable_audio_input == s.enable_audio_input,
        dispatch_phase(s, input).disable_audio_input == s.disable_audio_input,
        dispatch_phase(s, input).despawned == s.despawned,
{
    reveal(dispatch_phase);
}

/// What the recording and export stages never touch.
pub proof fn lemma_machines_phase_frame(
    s: Session,
    recording_outcome: Option<RecordingStartOutcome>,
    export_handle: Option<u64>,
    export_status: Option<ExportStatus>,
)
    ensures
        machines_phase(s, recording_outcome, export_handle, export_status).id == s.id,
        machines_phase(s, recording_outcome, export_handle, export_status).intent == s.intent,
        machines_phase(s, recording_outcome, export_handle, export_status).emitter == s.emitter,
        machines_phase(s, recording_outcome, export_handle, export_status).playback == s.playback,
        machines_phase(s, recording_outcome, export_handle, export_status).plugin == s.plugin,
        machines_phase(
            s,
            recording_outcome,
            export_handle,
            export_status,
        ).plugin_editor_open == s.plugin_editor_open,
        machines_phase(
            s,
            recording_outcome,
            export_handle,
            export_status,
        ).despawn_on_finish == s.despawn_on_finish,
        machines_phase(s, recording_outcome, export_handle, export_status).despawned
            == s.despawned,
        machines_phase(s, recording_outcome, export_handle, export_status).spatial == s.spatial,
{
    reveal(machines_phase);
}

/// Everything one tick of one session hands back to the driver.
pub struct SessionTickOutput {
    pub dispatch_report: Option<FailureReport>,
    pub recording_report: Option<FailureReport>,
    pub gain: Option<GainCommand>,
    pub stretch: Option<StretchWrite>,
    pub spatial: Option<SpatialUpdate>,
    pub send_midi: Option<SendMidi>,
    pub send_midi2: Option<SendMidi2>,
    pub input_commands: AudioInputCommands,
    /// The export job to start, with the handle of `export_handle` to be
    /// attached.
    pub export_request: Option<StartExport>,
    /// The plugin handle owed an editor idle tick.
    pub editor_idle: Option<u64>,
    pub removed_on_crash: Option<NodeId>,
    pub removed_on_finish: Option<NodeId>,
}

/// The dispatch stage of [`session_tick`], per [`dispatch_phase`].
fn tick_dispatch(
    s: &mut Session,
    sampler_outcome: Option<BuildOutcome>,
    node_outcome: Option<NodeOutcome>,
    effect_node: Option<NodeId>,
    plugin_outcome: Option<PluginLoadOutcome>,
    Ghost(input): Ghost<SessionTickInput>,
) -> (report: Option<FailureReport>)
    requires
        old(s).wf(),
        tick_input_consistent(*old(s), input),
        sampler_outcome == input.sampler_outcome,
        node_outcome == input.node_outcome,
        effect_node == input.effect_node,
        plugin_outcome == input.plugin_outcome,
    ensures
        *final(s) == dispatch_phase(*old(s), input),
        final(s).wf(),
        match old(s).intent {
            Some(Intent::PlayAudio(_)) => report == dispatch_report(
                *old(s),
                input.sampler_outcome->0,
            ),
            Some(Intent::PlaySoundFont(_)) | Some(Intent::PlayNeuralSynth(_)) | Some(
                Intent::PlayNeuralEffect(_),
            ) => report == node_dispatch_report(*old(s), input.node_outcome->0),
            Some(Intent::LoadPlugin(_)) => match input.plugin_outcome->0 {
                PluginLoadOutcome::Built { .. } => report is None,
                PluginLoadOutcome::UnsupportedFormat => report matches Some(r) && r.session == old(
                    s,
                ).id && r.reason@ == "unsupported plugin format"@,
                PluginLoadOutcome::LoadFailed { reason } => report == Some(
                    FailureReport { session: old(s).id, reason },
                ),
            },
            _ => report is None,
        },
{
    proof {
        reveal(dispatch_phase);
    }
    match &s.intent {
        Some(Intent::PlayAudio(_)) => {
            let outcome = sampler_outcome.unwrap();
            audio_playback_system(s, outcome)
        },
        Some(Intent::PlaySoundFont(_)) => {
            let outcome = node_outcome.unwrap();
            soundfont_playback_system(s, outcome)
        },
        Some(Intent::PlayNeuralSynth(_)) => {
            let outcome = node_outcome.unwrap();
            neural_synth_playback_system(s, outcome)
        },
        Some(Intent::PlayNeuralEffect(_)) => {
            let outcome = node_outcome.unwrap();
            neural_effect_playback_system(s, outcome)
        },
        Some(Intent::AddCompressor(_)) => {
            dsp_compressor_system(s, effect_node.unwrap());
            None
        },
        Some(Intent::AddGate(_)) => {
            dsp_gate_system(s, effect_node.unwrap());
            None
        },
        Some(Intent::AddLfo(_)) => {
            dsp_lfo_system(s, effect_node.unwrap());
            None
        },
        Some(Intent::AddAutomationLane(_)) => {
            automation_lane_system(s, effect_node.unwrap());
            None
        },
        Some(Intent::LoadPlugin(_)) => {
            let outcome = plugin_outcome.unwrap();
            plugin_load_system(s, outcome)
        },
        None => None,
    }
}

/// The recording and export stages of [`session_tick`], per
/// [`machines_phase`].
fn tick_machines(
    s: &mut Session,
    recording_outcome: Option<RecordingStartOutcome>,
    export_handle: Option<u64>,
    export_status: Option<ExportStatus>,
) -> (out: (Option<FailureReport>, Option<StartExport>))
    requires
        (recording_outcome is Some) == (old(s).start_recording is Some),
        (export_handle is Some) == (old(s).start_export is Some),
    ensures
        *final(s) == machines_phase(*old(s), recording_outcome, export_handle, export_status),
        out.0 == (if old(s).start_recording is Some {
            recording_start_report(*old(s), recording_outcome->0)
        } else {
            None::<FailureReport>
        }),
        out.1 == old(s).start_export,
{
    proof {
        reveal(machines_phase);
    }
    let recording_report = if s.start_recording.is_some() {
        let outcome = recording_outcome.unwrap();
        recording_start_system(s, outcome)
    } else {
        None
    };
    let export_request = if s.start_export.is_some() {
        Some(export_start_system(s, export_handle.unwrap()))
    } else {
        None
    };
    if let Some(status) = export_status {
        export_poll_system(s, status);
    }
    (recording_report, export_request)
}

/// Runs one tick's stages over one session, in dependency order, per
/// [`session_tick_transition`]: what was dispatched this tick is already
/// visible to this tick's sync and cleanup stages.
#[verifier::rlimit(100)]
pub fn session_tick(s: &mut Session, input: SessionTickInput) -> (out: SessionTickOutput)
    requires
        old(s).wf(),
        tick_input_consistent(*old(s), input),
    ensures
        *final(s) == session_tick_transition(*old(s), input),
        final(s).wf(),
        out.gain == param_sync_command(dispatch_phase(*old(s), input)),
        out.stretch == time_stretch_command(dispatch_phase(*old(s), input)),
        out.send_midi == old(s).send_midi,
        out.send_midi2 == old(s).send_midi2,
        out.input_commands == audio_input_commands(*old(s)),
        out.export_request == old(s).start_export,
        out.editor_idle == (if tick_pre_crash(*old(s), input).plugin is Some && tick_pre_crash(
            *old(s),
            input,
        ).plugin_editor_open {
            Some(tick_pre_crash(*old(s), input).plugin->0.handle)
        } else {
            None::<u64>
        }),
        out.removed_on_crash == plugin_crash_removal(
            tick_pre_crash(*old(s), input),
            input.plugin_crashed,
        ),
        out.removed_on_finish == cleanup_removal(tick_pre_cleanup(*old(s), input), input.is_playing),
        match old(s).intent {
            Some(Intent::PlayAudio(_)) => out.dispatch_report == dispatch_report(
                *old(s),
                input.sampler_outcome->0,
            ),
            Some(Intent::PlaySoundFont(_)) | Some(Intent::PlayNeuralSynth(_)) | Some(
                Intent::PlayNeuralEffect(_),
            ) => out.dispatch_report == node_dispatch_report(*old(s), input.node_outcome->0),
            Some(Intent::LoadPlugin(_)) => match input.plugin_outcome->0 {
                PluginLoadOutcome::Built { .. } => out.dispatch_report is None,
                PluginLoadOutcome::UnsupportedFormat => out.dispatch_report matches Some(r)
                    && r.session == old(s).id && r.reason@ == "unsupported plugin format"@,
                PluginLoadOutcome::LoadFailed { reason } => out.dispatch_report == Some(
                    FailureReport { session: old(s).id, reason },
                ),
            },
            _ => out.dispatch_report is None,
        },
        out.recording_report == (if old(s).start_recording is Some {
            recording_start_report(*old(s), input.recording_outcome->0)
        } else {
            None::<FailureReport>
        }),
{
    let ghost s0 = *s;
    proof {
        lemma_dispatch_phase_frame(s0, input);
    }

    // Dispatch: consume the pending node-creating intent, if any.
    let dispatch_report_out = tick_dispatch(
        s,
        input.sampler_outcome,
        input.node_outcome,
        input.effect_node,
        input.plugin_outcome,
        Ghost(input),
    );

    // Parameter sync: drain the dirty control attributes.
    let gain = audio_parameter_sync_system(s);
    let stretch = time_stretch_sync_system(s);

    // Spatial sync: cache a new panner, compute position and gain.
    let spatial = spatial_audio_sync_system(
        s,
        input.panner_created,
        input.relative_x,
        input.relative_y,
        input.relative_z,
    );

    // One-shot consumers.
    let send_midi = midi_send_system(s);
    let send_midi2 = midi2_send_system(s);
    let input_commands = audio_input_control_system(s);

    // Recording and export state machines.
    proof {
        lemma_machines_phase_frame(
            *s,
            input.recording_outcome,
            input.export_handle,
            input.export_status,
        );
    }
    let (recording_report_out, export_request) = tick_machines(
        s,
        input.recording_outcome,
        input.export_handle,
        input.export_status,
    );
    proof {
        assert(*s == tick_pre_crash(s0, input));
    }

    // Plugin lifecycle: idle the open editor, then poll the crash flag.
    let editor_idle = plugin_editor_idle_system(s);
    let removed_on_crash = plugin_crash_detect_system(s, input.plugin_crashed);
    proof {
        assert(*s == tick_pre_cleanup(s0, input));
    }

    // Cleanup runs last, seeing everything this tick installed.
    let removed_on_finish = audio_cleanup_system(s, input.is_playing);

    SessionTickOutput {
        dispatch_report: dispatch_report_out,
        recording_report: recording_report_out,
        gain,
        stretch,
        spatial,
        send_midi,
        send_midi2,
        input_commands,
        export_request,
        editor_idle,
        removed_on_crash,
        removed_on_finish,
    }
}

// ---------------------------------------------------------------------
// Tick-level laws
// ---------------------------------------------------------------------

/// One tick resolves a pending play intent whose prerequisites are
/// satisfied: afterwards the intent is gone and either exactly one emitter
/// is live on the session or the failure was reported; a deferred answer
/// leaves the intent in place for the next tick.
pub proof fn lemma_tick_resolves_intent(s: Session, input: SessionTickInput)
    requires
        s.wf(),
        tick_input_consistent(s, input),
        s.intent matches Some(Intent::PlayAudio(_)),
        s.plugin is None,
    ensures
        input.sampler_outcome->0 is Deferred ==> session_tick_transition(s, input).intent
            == s.intent,
        !(input.sampler_outcome->0 is Deferred) ==> session_tick_transition(s, input).intent
            is None,
        (session_tick_transition(s, input).emitter is Some) <==> (input.sampler_outcome->0
            is Built),
        (dispatch_report(s, input.sampler_outcome->0) is Some) <==> (input.sampler_outcome->0
            is Failed),
{
    reveal(dispatch_phase);
    reveal(machines_phase);
}

/// A live emitter handle is never replaced while it lives: one tick either
/// keeps it or removes it, and installs one only on a session that had
/// none.
pub proof fn lemma_tick_emitter_stable(s: Session, input: SessionTickInput)
    requires
        s.wf(),
        tick_input_consistent(s, input),
        s.emitter is Some,
    ensures
        session_tick_transition(s, input).emitter == s.emitter || session_tick_transition(
            s,
            input,
        ).emitter is None,
{
    reveal(dispatch_phase);
    reveal(machines_phase);
}

/// Once a live emitter's playback has reached `Finished`, no later tick
/// brings it back to `Playing`: only a fresh intent on an emitterless
/// session ever starts playback again, under a new handle.
pub proof fn lemma_tick_finished_monotonic(s: Session, input: SessionTickInput)
    requires
        s.wf(),
        tick_input_consistent(s, input),
        s.emitter is Some,
        s.playback == crate::components::AudioPlaybackState::Finished,
    ensures
        session_tick_transition(s, input).playback
            == crate::components::AudioPlaybackState::Finished,
{
    reveal(dispatch_phase);
    reveal(machines_phase);
}

} // verus!
