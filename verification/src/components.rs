//! Control-plane attribute types: one-shot intents, live-handle markers and
//! per-session control attributes.
//!
//! Scalars the engine exposes as floating point are fixed-point thousandths
//! here (`1000` is `1.0`); see the crate root.

use vstd::prelude::*;

use crate::AssetId;
use crate::NodeId;

verus! {

/// Marks a session as an audio emitter with a live node in the engine's
/// graph.  The node itself is owned by the engine; this is a reference.
#[derive(Clone, Copy, Debug, PartialEq, Eq, Structural)]
pub struct AudioEmitter {
    pub node_id: NodeId,
}

/// Distance-attenuation model for spatial emitters.
#[derive(Clone, Copy, Debug, PartialEq, Eq, Structural)]
pub enum AttenuationModel {
    InverseDistance,
    Linear,
    Exponential,
}

impl Default for AttenuationModel {
    fn default() -> (r: Self)
        ensures
            r == AttenuationModel::InverseDistance,
    {
        AttenuationModel::InverseDistance
    }
}

/// Spatial configuration of an emitter.  `panner_node_id` is lazily filled
/// on the first tick a panner could be created, then cached.
/// Distances are thousandths of a world unit.
#[derive(Clone, Copy, Debug, PartialEq, Eq, Structural)]
pub struct SpatialAudio {
    pub panner_node_id: Option<NodeId>,
    pub attenuation: AttenuationModel,
    pub max_distance: u32,
    pub ref_distance: u32,
}

impl Default for SpatialAudio {
    fn default() -> (r: Self)
        ensures
            r == (SpatialAudio {
                panner_node_id: None,
                attenuation: AttenuationModel::InverseDistance,
                max_distance: 100_000,
                ref_distance: 1000,
            }),
    {
        SpatialAudio {
            panner_node_id: None,
            attenuation: AttenuationModel::InverseDistance,
            max_distance: 100_000,
            ref_distance: 1000,
        }
    }
}

/// Playback state of an emitter; moved from `Playing` to `Finished` by the
/// cleanup stage when a non-looping source stops, and never moved back.
#[derive(Clone, Copy, Debug, PartialEq, Eq, Structural)]
pub enum AudioPlaybackState {
    Stopped,
    Playing,
    Finished,
}

impl Default for AudioPlaybackState {
    fn default() -> (r: Self)
        ensures
            r == AudioPlaybackState::Stopped,
    {
        AudioPlaybackState::Stopped
    }
}

/// Volume control attribute, in thousandths.
#[derive(Clone, Copy, Debug, PartialEq, Eq, Structural)]
pub struct AudioVolume(pub u32);

impl Default for AudioVolume {
    fn default() -> (r: Self)
        ensures
            r == AudioVolume(1000),
    {
        AudioVolume(1000)
    }
}

/// One-shot intent: start sample playback.  Consumed by the dispatch stage,
/// which replaces it with an [`AudioEmitter`].
#[derive(Clone, Copy, Debug, PartialEq, Eq, Structural)]
pub struct PlayAudio {
    pub source: AssetId,
    pub looping: bool,
    pub gain: u32,
    pub speed: u32,
    pub auto_despawn: bool,
}

impl PlayAudio {
    /// One-shot playback of a decoded source, at unit gain and speed.
    pub fn once(source: AssetId) -> (r: Self)
        ensures
            r == (PlayAudio { source, looping: false, gain: 1000, speed: 1000, auto_despawn: false }),
    {
        PlayAudio { source, looping: false, gain: 1000, speed: 1000, auto_despawn: false }
    }

    /// Looping playback of a decoded source, at unit gain and speed.
    pub fn looping(source: AssetId) -> (r: Self)
        ensures
            r == (PlayAudio { source, looping: true, gain: 1000, speed: 1000, auto_despawn: false }),
    {
        PlayAudio { source, looping: true, gain: 1000, speed: 1000, auto_despawn: false }
    }

    pub fn gain(self, gain: u32) -> (r: Self)
        ensures
            r == (PlayAudio { gain, ..self }),
    {
        PlayAudio { gain, ..self }
    }

    pub fn speed(self, speed: u32) -> (r: Self)
        ensures
            r == (PlayAudio { speed, ..self }),
    {
        PlayAudio { speed, ..self }
    }

    /// The session is despawned by the cleanup stage once playback finishes.
    pub fn despawn_on_finish(self) -> (r: Self)
        ensures
            r == (PlayAudio { auto_despawn: true, ..self }),
    {
        PlayAudio { auto_despawn: true, ..self }
    }

    /// Enable time stretching: the dispatcher wraps the sampler in a
    /// stretch-processing unit and installs a [`TimeStretchControl`].
    /// `stretch_factor` is in thousandths, `pitch_cents` in cents.
    pub fn time_stretch(self, stretch_factor: u32, pitch_cents: i32) -> (r: (Self, TimeStretch))
        ensures
            r == ((self, TimeStretch { stretch_factor, pitch_cents })),
    {
        (self, TimeStretch { stretch_factor, pitch_cents })
    }
}

/// One-shot intent: create a soundfont instrument node routed to MIDI.
#[derive(Clone, Copy, Debug, PartialEq, Eq, Structural)]
pub struct PlaySoundFont {
    pub source: AssetId,
    pub preset: i32,
    pub channel: i32,
}

impl PlaySoundFont {
    pub fn new(source: AssetId) -> (r: Self)
        ensures
            r == (PlaySoundFont { source, preset: 0, channel: 0 }),
    {
        PlaySoundFont { source, preset: 0, channel: 0 }
    }

    pub fn preset(self, preset: i32) -> (r: Self)
        ensures
            r == (PlaySoundFont { preset, ..self }),
    {
        PlaySoundFont { preset, ..self }
    }

    pub fn channel(self, channel: i32) -> (r: Self)
        ensures
            r == (PlaySoundFont { channel, ..self }),
    {
        PlaySoundFont { channel, ..self }
    }
}

/// One-shot intent: create a neural synthesizer node from a loaded model.
#[derive(Clone, Copy, Debug, PartialEq, Eq, Structural)]
pub struct PlayNeuralSynth {
    pub source: AssetId,
}

impl PlayNeuralSynth {
    pub fn new(source: AssetId) -> (r: Self)
        ensures
            r == (PlayNeuralSynth { source }),
    {
        PlayNeuralSynth { source }
    }
}

/// One-shot intent: create a neural effect node from a loaded model.
#[derive(Clone, Copy, Debug, PartialEq, Eq, Structural)]
pub struct PlayNeuralEffect {
    pub source: AssetId,
}

impl PlayNeuralEffect {
    pub fn new(source: AssetId) -> (r: Self)
        ensures
            r == (PlayNeuralEffect { source }),
    {
        PlayNeuralEffect { source }
    }
}

/// One-shot intent: load an audio plugin.  The plugin format is resolved
/// from the path's file extension; parameter values are thousandths and are
/// applied in the order given.
#[derive(Debug, Clone, PartialEq, Eq)]
pub struct LoadPlugin {
    pub path: String,
    pub params: Vec<(String, u32)>,
}

impl LoadPlugin {
    pub fn new(path: String) -> (r: Self)
        ensures
            r.path == path,
            r.params@ =~= Seq::<(String, u32)>::empty(),
    {
        LoadPlugin { path, params: Vec::new() }
    }

    pub fn param(self, name: String, value: u32) -> (r: Self)
        ensures
            r.path == self.path,
            r.params@ == self.params@.push((name, value)),
    {
        let mut r = self;
        r.params.push((name, value));
        r
    }
}

/// Marks a session as a loaded plugin with a control handle.
#[derive(Clone, Copy, Debug, PartialEq, Eq, Structural)]
pub struct PluginEmitter {
    pub handle: u64,
}

/// One-shot intent: start recording on a sampler channel.
#[derive(Clone, Copy, Debug, PartialEq, Eq, Structural)]
pub struct StartRecording {
    pub channel_index: usize,
    pub source: RecordingSource,
    pub mode: RecordingMode,
}

impl StartRecording {
    pub fn new(channel_index: usize, source: RecordingSource) -> (r: Self)
        ensures
            r == (StartRecording { channel_index, source, mode: RecordingMode::Replace }),
    {
        StartRecording { channel_index, source, mode: RecordingMode::Replace }
    }

    pub fn mode(self, mode: RecordingMode) -> (r: Self)
        ensures
            r == (StartRecording { mode, ..self }),
    {
        StartRecording { mode, ..self }
    }
}

/// What a recording session captures.
#[derive(Clone, Copy, Debug, PartialEq, Eq, Structural)]
pub enum RecordingSource {
    Input,
    Master,
}

/// How recorded material combines with existing channel content.
#[derive(Clone, Copy, Debug, PartialEq, Eq, Structural)]
pub enum RecordingMode {
    Replace,
    Overdub,
}

/// One-shot intent: stop the active recording on a channel.
#[derive(Clone, Copy, Debug, PartialEq, Eq, Structural)]
pub struct StopRecording {
    pub channel_index: usize,
}

/// Marks a session as having an active recording.
#[derive(Clone, Copy, Debug, PartialEq, Eq, Structural)]
pub struct RecordingActive {
    pub channel_index: usize,
    pub source: RecordingSource,
    pub mode: RecordingMode,
}

/// Output file format of an offline export.
#[derive(Clone, Copy, Debug, PartialEq, Eq, Structural)]
pub enum AudioFormat {
    Wav,
    Flac,
    Mp3,
    Ogg,
}

/// Loudness normalization applied by an offline export.
#[derive(Clone, Copy, Debug, PartialEq, Eq, Structural)]
pub enum NormalizationMode {
    Off,
    Peak,
}

/// One-shot intent: start an offline export.  Durations are thousandths of
/// seconds, or thousandths of beats paired with a tempo in thousandths of
/// beats per minute.
#[derive(Debug, Clone, PartialEq, Eq)]
pub struct StartExport {
    pub path: String,
    pub duration_seconds: Option<u64>,
    pub duration_beats: Option<(u64, u32)>,
    pub format: Option<AudioFormat>,
    pub normalization: Option<NormalizationMode>,
}

impl StartExport {
    pub fn new(path: String) -> (r: Self)
        ensures
            r.path == path,
            r.duration_seconds is None,
            r.duration_beats is None,
            r.format is None,
            r.normalization is None,
    {
        StartExport {
            path,
            duration_seconds: None,
            duration_beats: None,
            format: None,
            normalization: None,
        }
    }

    pub fn duration_seconds(self, seconds: u64) -> (r: Self)
        ensures
            r == (StartExport { duration_seconds: Some(seconds), ..self }),
    {
        StartExport { duration_seconds: Some(seconds), ..self }
    }

    pub fn duration_beats(self, beats: u64, tempo: u32) -> (r: Self)
        ensures
            r == (StartExport { duration_beats: Some((beats, tempo)), ..self }),
    {
        StartExport { duration_beats: Some((beats, tempo)), ..self }
    }

    pub fn format(self, format: AudioFormat) -> (r: Self)
        ensures
            r == (StartExport { format: Some(format), ..self }),
    {
        StartExport { format: Some(format), ..self }
    }

    pub fn normalization(self, mode: NormalizationMode) -> (r: Self)
        ensures
            r == (StartExport { normalization: Some(mode), ..self }),
    {
        StartExport { normalization: Some(mode), ..self }
    }
}

/// One-shot intent: enable audio input capture.  `gain` is thousandths.
#[derive(Clone, Copy, Debug, PartialEq, Eq, Structural)]
pub struct EnableAudioInput {
    pub device_index: Option<usize>,
    pub monitoring: bool,
    pub gain: u32,
}

impl Default for EnableAudioInput {
    fn default() -> (r: Self)
        ensures
            r == (EnableAudioInput { device_index: None, monitoring: false, gain: 1000 }),
    {
        EnableAudioInput { device_index: None, monitoring: false, gain: 1000 }
    }
}

impl EnableAudioInput {
    pub fn new() -> (r: Self)
        ensures
            r == (EnableAudioInput { device_index: None, monitoring: false, gain: 1000 }),
    {
        EnableAudioInput { device_index: None, monitoring: false, gain: 1000 }
    }

    pub fn device(self, index: usize) -> (r: Self)
        ensures
            r == (EnableAudioInput { device_index: Some(index), ..self }),
    {
        EnableAudioInput { device_index: Some(index), ..self }
    }

    pub fn monitoring(self, enabled: bool) -> (r: Self)
        ensures
            r == (EnableAudioInput { monitoring: enabled, ..self }),
    {
        EnableAudioInput { monitoring: enabled, ..self }
    }

    pub fn gain(self, gain: u32) -> (r: Self)
        ensures
            r == (EnableAudioInput { gain, ..self }),
    {
        EnableAudioInput { gain, ..self }
    }
}

/// Interpolation shape of an automation segment.
#[derive(Clone, Copy, Debug, PartialEq, Eq, Structural)]
pub enum CurveType {
    Linear,
    SCurve,
    Step,
}

/// One point of an automation envelope: a beat position (thousandths of
/// beats), a target value (thousandths) and the curve toward the next point.
#[derive(Clone, Copy, Debug, PartialEq, Eq, Structural)]
pub struct AutomationPoint {
    pub beat: u64,
    pub value: i64,
    pub curve: CurveType,
}

/// A named automation target with its envelope points.
#[derive(Debug, Clone, PartialEq, Eq)]
pub struct AutomationEnvelope {
    pub target: String,
    pub points: Vec<AutomationPoint>,
}

/// One-shot intent: add an automation lane node driving a named target.
#[derive(Debug, Clone, PartialEq, Eq)]
pub struct AddAutomationLane {
    pub envelope: AutomationEnvelope,
}

impl AddAutomationLane {
    pub fn new(target: String) -> (r: Self)
        ensures
            r.envelope.target == target,
            r.envelope.points@ =~= Seq::<AutomationPoint>::empty(),
    {
        AddAutomationLane { envelope: AutomationEnvelope { target, points: Vec::new() } }
    }

    pub fn with_envelope(envelope: AutomationEnvelope) -> (r: Self)
        ensures
            r.envelope == envelope,
    {
        AddAutomationLane { envelope }
    }
}

/// Marks a session as owning an automation lane node in the graph.
#[derive(Clone, Copy, Debug, PartialEq, Eq, Structural)]
pub struct AutomationLaneEmitter {
    pub node_id: NodeId,
}

/// Time-stretch configuration: stretch factor in thousandths, pitch offset
/// in cents.
#[derive(Clone, Copy, Debug, PartialEq, Eq, Structural)]
pub struct TimeStretch {
    pub stretch_factor: u32,
    pub pitch_cents: i32,
}

/// Handle to the pair of lock-free scalars a stretch-processing unit reads;
/// jointly owned by the session and the engine-owned node.
#[derive(Clone, Copy, Debug, PartialEq, Eq, Structural)]
pub struct TimeStretchControl {
    pub control: u64,
}

/// One-shot intent: add a sidechain compressor node.  Decibel fields are
/// thousandths of a dB, times are thousandths of seconds, `ratio` is
/// thousandths.
#[derive(Clone, Copy, Debug, PartialEq, Eq, Structural)]
pub struct AddCompressor {
    pub threshold_db: i32,
    pub ratio: u32,
    pub attack: u32,
    pub release: u32,
    pub makeup_db: i32,
    pub stereo: bool,
}

impl Default for AddCompressor {
    fn default() -> (r: Self)
        ensures
            r == (AddCompressor {
                threshold_db: -20_000i32,
                ratio: 4000,
                attack: 5,
                release: 100,
                makeup_db: 0,
                stereo: false,
            }),
    {
        AddCompressor {
            threshold_db: -20_000,
            ratio: 4000,
            attack: 5,
            release: 100,
            makeup_db: 0,
            stereo: false,
        }
    }
}

impl AddCompressor {
    pub fn new(threshold_db: i32, ratio: u32) -> (r: Self)
        ensures
            r == (AddCompressor {
                threshold_db,
                ratio,
                attack: 5,
                release: 100,
                makeup_db: 0,
                stereo: false,
            }),
    {
        AddCompressor { threshold_db, ratio, attack: 5, release: 100, makeup_db: 0, stereo: false }
    }

    pub fn attack(self, seconds: u32) -> (r: Self)
        ensures
            r == (AddCompressor { attack: seconds, ..self }),
    {
        AddCompressor { attack: seconds, ..self }
    }

    pub fn release(self, seconds: u32) -> (r: Self)
        ensures
            r == (AddCompressor { release: seconds, ..self }),
    {
        AddCompressor { release: seconds, ..self }
    }

    pub fn makeup(self, db: i32) -> (r: Self)
        ensures
            r == (AddCompressor { makeup_db: db, ..self }),
    {
        AddCompressor { makeup_db: db, ..self }
    }

    pub fn stereo(self) -> (r: Self)
        ensures
            r == (AddCompressor { stereo: true, ..self }),
    {
        AddCompressor { stereo: true, ..self }
    }
}

/// One-shot intent: add a sidechain gate node.  Units as in
/// [`AddCompressor`].
#[derive(Clone, Copy, Debug, PartialEq, Eq, Structural)]
pub struct AddGate {
    pub threshold_db: i32,
    pub attack: u32,
    pub hold: u32,
    pub release: u32,
    pub stereo: bool,
}

impl Default for AddGate {
    fn default() -> (r: Self)
        ensures
            r == (AddGate { threshold_db: -30_000i32, attack: 1, hold: 10, release: 100, stereo: false }),
    {
        AddGate { threshold_db: -30_000, attack: 1, hold: 10, release: 100, stereo: false }
    }
}

impl AddGate {
    pub fn new(threshold_db: i32) -> (r: Self)
        ensures
            r == (AddGate { threshold_db, attack: 1, hold: 10, release: 100, stereo: false }),
    {
        AddGate { threshold_db, attack: 1, hold: 10, release: 100, stereo: false }
    }

    pub fn attack(self, seconds: u32) -> (r: Self)
        ensures
            r == (AddGate { attack: seconds, ..self }),
    {
        AddGate { attack: seconds, ..self }
    }

    pub fn hold(self, seconds: u32) -> (r: Self)
        ensures
            r == (AddGate { hold: seconds, ..self }),
    {
        AddGate { hold: seconds, ..self }
    }

    pub fn release(self, seconds: u32) -> (r: Self)
        ensures
            r == (AddGate { release: seconds, ..self }),
    {
        AddGate { release: seconds, ..self }
    }

    pub fn stereo(self) -> (r: Self)
        ensures
            r == (AddGate { stereo: true, ..self }),
    {
        AddGate { stereo: true, ..self }
    }
}

/// Waveform of a low-frequency oscillator.
#[derive(Clone, Copy, Debug, PartialEq, Eq, Structural)]
pub enum LfoShape {
    Sine,
    Triangle,
    Square,
    Saw,
}

/// One-shot intent: add a low-frequency-oscillator node.  `frequency` is
/// thousandths of Hz for a free-running LFO, or thousandths of beats per
/// cycle when `beat_synced`; `depth` is thousandths.
#[derive(Clone, Copy, Debug, PartialEq, Eq, Structural)]
pub struct AddLfo {
    pub shape: LfoShape,
    pub frequency: u32,
    pub depth: u32,
    pub beat_synced: bool,
}

impl Default for AddLfo {
    fn default() -> (r: Self)
        ensures
            r == (AddLfo { shape: LfoShape::Sine, frequency: 1000, depth: 1000, beat_synced: false }),
    {
        AddLfo { shape: LfoShape::Sine, frequency: 1000, depth: 1000, beat_synced: false }
    }
}

impl AddLfo {
    /// Free-running LFO with the given shape and frequency.
    pub fn new(shape: LfoShape, frequency: u32) -> (r: Self)
        ensures
            r == (AddLfo { shape, frequency, depth: 1000, beat_synced: false }),
    {
        AddLfo { shape, frequency, depth: 1000, beat_synced: false }
    }

    /// Beat-synced LFO with the given shape and beats per cycle.
    pub fn beat_synced(shape: LfoShape, beats_per_cycle: u32) -> (r: Self)
        ensures
            r == (AddLfo { shape, frequency: beats_per_cycle, depth: 1000, beat_synced: true }),
    {
        AddLfo { shape, frequency: beats_per_cycle, depth: 1000, beat_synced: true }
    }

    pub fn depth(self, depth: u32) -> (r: Self)
        ensures
            r == (AddLfo { depth, ..self }),
    {
        AddLfo { depth, ..self }
    }
}

} // verus!
