//! The control-plane session store: one record per session object, holding
//! its pending intents, live handles and control attributes.

use vstd::prelude::*;

use crate::NodeId;
use crate::SessionId;
use crate::components::AddAutomationLane;
use crate::components::AddCompressor;
use crate::components::AddGate;
use crate::components::AddLfo;
use crate::components::AudioEmitter;
use crate::components::AudioPlaybackState;
use crate::components::AudioVolume;
use crate::components::AutomationLaneEmitter;
use crate::components::EnableAudioInput;
use crate::components::LoadPlugin;
use crate::components::PlayAudio;
use crate::components::PlayNeuralEffect;
use crate::components::PlayNeuralSynth;
use crate::components::PlaySoundFont;
use crate::components::PluginEmitter;
use crate::components::RecordingActive;
use crate::components::SpatialAudio;
use crate::components::StartExport;
use crate::components::StartRecording;
use crate::components::StopRecording;
use crate::components::TimeStretch;
use crate::components::TimeStretchControl;
use crate::export_systems::ExportPhase;
use crate::midi::components::ConnectMidiDevice;
use crate::midi::components::MidiReceiver;
use crate::midi::components::MpeReceiver;
use crate::midi::components::SendMidi;
use crate::midi::components::SendMidi2;
use crate::systems::RecordingResult;

verus! {

/// A node-creating one-shot request.  The dispatch stage consumes it and
/// installs an [`AudioEmitter`] in its place.
#[derive(Debug, Clone, PartialEq, Eq)]
pub enum Intent {
    PlayAudio(PlayAudio),
    PlaySoundFont(PlaySoundFont),
    PlayNeuralSynth(PlayNeuralSynth),
    PlayNeuralEffect(PlayNeuralEffect),
    LoadPlugin(LoadPlugin),
    AddCompressor(AddCompressor),
    AddGate(AddGate),
    AddLfo(AddLfo),
    AddAutomationLane(AddAutomationLane),
}

/// A permanent failure surfaced through the side channel: the intent that
/// caused it has been removed and is not retried.
#[derive(Debug, Clone, PartialEq, Eq)]
pub struct FailureReport {
    pub session: SessionId,
    pub reason: String,
}

/// One session object: the identity that intents, live handles and control
/// attributes attach to.  It owns zero or one emitter.
#[derive(Debug, Clone, PartialEq, Eq)]
pub struct Session {
    pub id: SessionId,
    /// Pending node-creating intent, consumed at most once.
    pub intent: Option<Intent>,
    /// The live graph node this session refers to, if any.
    pub emitter: Option<AudioEmitter>,
    pub playback: AudioPlaybackState,
    /// Despawn the session when its sample finishes.
    pub despawn_on_finish: bool,
    /// Set by the cleanup stage; the scheduler then destroys the object.
    pub despawned: bool,
    pub volume: AudioVolume,
    /// The volume changed since the parameter-sync stage last ran.
    pub volume_dirty: bool,
    pub time_stretch: Option<TimeStretch>,
    /// The stretch configuration changed since the sync stage last ran.
    pub time_stretch_dirty: bool,
    pub stretch_control: Option<TimeStretchControl>,
    pub spatial: Option<SpatialAudio>,
    pub midi_receiver: Option<MidiReceiver>,
    pub mpe_receiver: Option<MpeReceiver>,
    pub send_midi: Option<SendMidi>,
    pub send_midi2: Option<SendMidi2>,
    pub connect_midi_device: Option<ConnectMidiDevice>,
    pub disconnect_midi_device: bool,
    pub plugin: Option<PluginEmitter>,
    pub plugin_editor_open: bool,
    pub start_recording: Option<StartRecording>,
    pub stop_recording: Option<StopRecording>,
    pub recording_active: Option<RecordingActive>,
    pub recording_result: Option<RecordingResult>,
    pub start_export: Option<StartExport>,
    pub export: ExportPhase,
    pub enable_audio_input: Option<EnableAudioInput>,
    pub disable_audio_input: bool,
    pub enable_live_analysis: bool,
    pub disable_live_analysis: bool,
    pub automation_lane: Option<AutomationLaneEmitter>,
}

/// A fresh session: no intents, no handles, unit volume, stopped playback.
pub open spec fn blank_session(id: SessionId) -> Session {
    Session {
        id,
        intent: None,
        emitter: None,
        playback: AudioPlaybackState::Stopped,
        despawn_on_finish: false,
        despawned: false,
        volume: AudioVolume(1000),
        volume_dirty: false,
        time_stretch: None,
        time_stretch_dirty: false,
        stretch_control: None,
        spatial: None,
        midi_receiver: None,
        mpe_receiver: None,
        send_midi: None,
        send_midi2: None,
        connect_midi_device: None,
        disconnect_midi_device: false,
        plugin: None,
        plugin_editor_open: false,
        start_recording: None,
        stop_recording: None,
        recording_active: None,
        recording_result: None,
        start_export: None,
        export: ExportPhase::Idle,
        enable_audio_input: None,
        disable_audio_input: false,
        enable_live_analysis: false,
        disable_live_analysis: false,
        automation_lane: None,
    }
}

impl Session {
    /// A session may carry a pending node-creating intent or a live
    /// emitter, never both: inserting a second node-creating request while
    /// a node is live is a programming error.
    pub open spec fn wf(self) -> bool {
        self.intent is Some ==> self.emitter is None
    }

    pub fn new(id: SessionId) -> (s: Session)
        ensures
            s == blank_session(id),
            s.wf(),
    {
        Session {
            id,
            intent: None,
            emitter: None,
            playback: AudioPlaybackState::Stopped,
            despawn_on_finish: false,
            despawned: false,
            volume: AudioVolume(1000),
            volume_dirty: false,
            time_stretch: None,
            time_stretch_dirty: false,
            stretch_control: None,
            spatial: None,
            midi_receiver: None,
            mpe_receiver: None,
            send_midi: None,
            send_midi2: None,
            connect_midi_device: None,
            disconnect_midi_device: false,
            plugin: None,
            plugin_editor_open: false,
            start_recording: None,
            stop_recording: None,
            recording_active: None,
            recording_result: None,
            start_export: None,
            export: ExportPhase::Idle,
            enable_audio_input: None,
            disable_audio_input: false,
            enable_live_analysis: false,
            disable_live_analysis: false,
            automation_lane: None,
        }
    }

    /// Attach a node-creating intent.  Refused while an emitter is live.
    pub fn insert_intent(&mut self, intent: Intent)
        requires
            old(self).emitter is None,
        ensures
            *final(self) == (Session { intent: Some(intent), ..*old(self) }),
    {
        self.intent = Some(intent);
    }

    /// Change the volume attribute; the parameter-sync stage will pick the
    /// change up on the next tick.
    pub fn set_volume(&mut self, volume: AudioVolume)
        ensures
            *final(self) == (Session { volume, volume_dirty: true, ..*old(self) }),
    {
        self.volume = volume;
        self.volume_dirty = true;
    }

    /// Change the time-stretch attribute; the sync stage will push it to
    /// the lock-free control on the next tick.
    pub fn set_time_stretch(&mut self, ts: TimeStretch)
        ensures
            *final(self) == (Session {
                time_stretch: Some(ts),
                time_stretch_dirty: true,
                ..*old(self)
            }),
    {
        self.time_stretch = Some(ts);
        self.time_stretch_dirty = true;
    }
}

/// The graph nodes a session holds references to: the nodes its emitter,
/// its cached panner and its automation lane point at, in that order.
pub open spec fn owned_nodes(s: Session) -> Seq<NodeId> {
    let with_emitter = match s.emitter {
        Some(e) => seq![e.node_id],
        None => Seq::empty(),
    };
    let with_panner = match s.spatial {
        Some(sp) => match sp.panner_node_id {
            Some(p) => with_emitter + seq![p],
            None => with_emitter,
        },
        None => with_emitter,
    };
    match s.automation_lane {
        Some(lane) => with_panner + seq![lane.node_id],
        None => with_panner,
    }
}

/// The whole control-plane state: every live session and the failure
/// reports surfaced so far.
#[derive(Debug, Clone, PartialEq, Eq)]
pub struct SessionStore {
    pub sessions: Vec<Session>,
    pub reports: Vec<FailureReport>,
    pub next_id: SessionId,
}

impl SessionStore {
    /// Session identities are unique, below the allocation cursor, and each
    /// session is itself well formed.
    pub open spec fn wf(self) -> bool {
        &&& forall|i: int, j: int|
            #![trigger self.sessions@[i].id, self.sessions@[j].id]
            0 <= i < j < self.sessions@.len() ==> self.sessions@[i].id != self.sessions@[j].id
        &&& forall|i: int| 0 <= i < self.sessions@.len()
            ==> (#[trigger] self.sessions@[i]).id < self.next_id
        &&& forall|i: int| 0 <= i < self.sessions@.len() ==> (#[trigger] self.sessions@[i]).wf()
    }

    pub fn new() -> (store: SessionStore)
        ensures
            store.sessions@ =~= Seq::<Session>::empty(),
            store.reports@ =~= Seq::<FailureReport>::empty(),
            store.next_id == 0,
            store.wf(),
    {
        SessionStore { sessions: Vec::new(), reports: Vec::new(), next_id: 0 }
    }

    /// Create a fresh session object and return its identity.
    pub fn spawn(&mut self) -> (id: SessionId)
        requires
            old(self).wf(),
            old(self).next_id < u64::MAX,
        ensures
            final(self).wf(),
            id == old(self).next_id,
            final(self).sessions@ == old(self).sessions@.push(blank_session(id)),
            final(self).reports == old(self).reports,
            final(self).next_id == old(self).next_id + 1,
    {
        let id = self.next_id;
        let s = Session::new(id);
        self.sessions.push(s);
        self.next_id = self.next_id + 1;
        id
    }

    pub fn len(&self) -> (n: usize)
        ensures
            n == self.sessions@.len(),
    {
        self.sessions.len()
    }

    /// Borrow the session at `i` mutably.  The caller is responsible for
    /// keeping identities intact; the tick stages never change them.
    pub fn session_at_mut(&mut self, i: usize) -> (s: &mut Session)
        requires
            i < old(self).sessions@.len(),
        ensures
            *s == old(self).sessions@[i as int],
            final(self).sessions@ == old(self).sessions@.update(i as int, *final(s)),
            final(self).reports == old(self).reports,
            final(self).next_id == old(self).next_id,
    {
        &mut self.sessions[i]
    }

    pub fn session_at(&self, i: usize) -> (s: &Session)
        requires
            i < self.sessions@.len(),
        ensures
            *s == self.sessions@[i as int],
    {
        &self.sessions[i]
    }

    /// Destroys the session at `i`, as the scheduler's removal notification
    /// demands, and returns every graph node the session owned — its
    /// emitter's node, its cached panner, its automation lane — so the
    /// caller can remove them from the graph: no node outlives the handle
    /// that referred to it.
    pub fn remove_session(&mut self, i: usize) -> (nodes: Vec<NodeId>)
        requires
            old(self).wf(),
            i < old(self).sessions@.len(),
        ensures
            final(self).wf(),
            final(self).sessions@ == old(self).sessions@.remove(i as int),
            final(self).reports == old(self).reports,
            final(self).next_id == old(self).next_id,
            nodes@ == owned_nodes(old(self).sessions@[i as int]),
    {
        let s = self.sessions.remove(i);
        proof {
            assert forall|a: int, b: int|
                #![trigger self.sessions@[a].id, self.sessions@[b].id]
                0 <= a < b < self.sessions@.len() implies self.sessions@[a].id
                != self.sessions@[b].id by {
                let old_a = if a < i { a } else { a + 1 };
                let old_b = if b < i { b } else { b + 1 };
                assert(self.sessions@[a] == old(self).sessions@[old_a]);
                assert(self.sessions@[b] == old(self).sessions@[old_b]);
            }
        }
        let mut nodes: Vec<NodeId> = Vec::new();
        if let Some(e) = &s.emitter {
            nodes.push(e.node_id);
        }
        if let Some(sp) = &s.spatial {
            if let Some(p) = sp.panner_node_id {
                nodes.push(p);
            }
        }
        if let Some(lane) = &s.automation_lane {
            nodes.push(lane.node_id);
        }
        proof {
            assert(nodes@ =~= owned_nodes(s));
        }
        nodes
    }

    /// Find the index of the session with identity `id`.
    pub fn index_of(&self, id: SessionId) -> (r: Option<usize>)
        ensures
            match r {
                Some(i) => i < self.sessions@.len() && self.sessions@[i as int].id == id,
                None => forall|i: int| 0 <= i < self.sessions@.len()
                    ==> (#[trigger] self.sessions@[i]).id != id,
            },
    {
        let mut i: usize = 0;
        while i < self.sessions.len()
            invariant
                i <= self.sessions@.len(),
                forall|k: int| 0 <= k < i ==> (#[trigger] self.sessions@[k]).id != id,
            decreases self.sessions@.len() - i,
        {
            if self.sessions[i].id == id {
                return Some(i);
            }
            i = i + 1;
        }
        None
    }
}

} // verus!
