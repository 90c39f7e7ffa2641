//! Control-plane orchestration for a real-time audio session graph.
//!
//! This library is the non-real-time half of an audio system: a per-tick
//! control loop that turns one-shot, declarative intent records into live
//! nodes of an audio synthesis graph, keeps control-plane state in step with
//! the engine every tick, and tears nodes down deterministically when
//! playback finishes, a plugin crashes, or an operation completes.
//!
//! The engine itself (graph, transport, MIDI subsystem, metering, unit
//! builders) and the tick scheduler are external collaborators.  Every
//! interaction with them is modelled at the boundary: each tick function
//! takes the engine's answers (build results, poll results, snapshots) as
//! plain values and returns the commands the caller must hand back to the
//! engine.  The driver that owns the engine performs those commands; the
//! decisions themselves are made, and verified, here.
//!
//! Scalar quantities that the engine exposes as floating point (gains,
//! speeds, distances, seconds, beats) are carried as fixed-point integers in
//! thousandths, so `1000` stands for `1.0`.  The driver converts at the
//! boundary.

use vstd::prelude::*;

pub mod analysis;
pub mod assets;
pub mod attenuation;
pub mod audio_input;
pub mod components;
pub mod content_bounds;
pub mod device_state;
pub mod export_systems;
pub mod math;
pub mod metering;
pub mod midi;
pub mod neural_assets;
pub mod paths;
pub mod session;
pub mod soundfont_assets;
pub mod systems;
pub mod tick;
pub mod transport;

use crate::midi::systems::MpeMode;

verus! {

/// Identifier of a node inside the audio engine's graph.
pub type NodeId = u64;

/// Identifier of a control-plane session object.
pub type SessionId = u64;

/// Identifier of a decoded asset (a wave, a soundfont, a neural model).
pub type AssetId = u64;

/// Start-up configuration of the orchestration layer: how the engine is to
/// be built and whether the per-tick stages run at all.
#[derive(Clone, Copy, Debug, PartialEq, Eq, Structural)]
pub struct TuttiPlugin {
    /// `None` selects the system default output device.
    pub output_device: Option<usize>,
    pub inputs: usize,
    pub outputs: usize,
    pub enable_midi: bool,
    /// With this off, only the engine is exposed and no stage runs.
    pub enable_ecs: bool,
    pub mpe_mode: Option<MpeMode>,
}

impl Default for TuttiPlugin {
    fn default() -> (r: Self)
        ensures
            r == (TuttiPlugin {
                output_device: None,
                inputs: 0,
                outputs: 2,
                enable_midi: true,
                enable_ecs: true,
                mpe_mode: None,
            }),
    {
        TuttiPlugin {
            output_device: None,
            inputs: 0,
            outputs: 2,
            enable_midi: true,
            enable_ecs: true,
            mpe_mode: None,
        }
    }
}

/// What the driver asks the engine builder for, derived from the
/// configuration alone.
#[derive(Clone, Copy, Debug, PartialEq, Eq, Structural)]
pub struct EngineBuildRequest {
    pub inputs: usize,
    pub outputs: usize,
    pub output_device: Option<usize>,
    pub midi: bool,
    pub mpe_mode: Option<MpeMode>,
}

impl TuttiPlugin {
    pub fn with_io(inputs: usize, outputs: usize) -> (r: Self)
        ensures
            r == (TuttiPlugin {
                output_device: None,
                inputs,
                outputs,
                enable_midi: true,
                enable_ecs: true,
                mpe_mode: None,
            }),
    {
        TuttiPlugin {
            output_device: None,
            inputs,
            outputs,
            enable_midi: true,
            enable_ecs: true,
            mpe_mode: None,
        }
    }

    pub fn with_midi(self) -> (r: Self)
        ensures
            r == (TuttiPlugin { enable_midi: true, ..self }),
    {
        TuttiPlugin { enable_midi: true, ..self }
    }

    pub fn with_output_device(self, index: usize) -> (r: Self)
        ensures
            r == (TuttiPlugin { output_device: Some(index), ..self }),
    {
        TuttiPlugin { output_device: Some(index), ..self }
    }

    /// Polyphonic expression needs MIDI, so this enables it too.
    pub fn with_mpe(self, mode: MpeMode) -> (r: Self)
        ensures
            r == (TuttiPlugin { mpe_mode: Some(mode), enable_midi: true, ..self }),
    {
        TuttiPlugin { mpe_mode: Some(mode), enable_midi: true, ..self }
    }

    pub fn without_ecs(self) -> (r: Self)
        ensures
            r == (TuttiPlugin { enable_ecs: false, ..self }),
    {
        TuttiPlugin { enable_ecs: false, ..self }
    }

    /// The engine build request this configuration amounts to.
    pub fn engine_request(&self) -> (r: EngineBuildRequest)
        ensures
            r == (EngineBuildRequest {
                inputs: self.inputs,
                outputs: self.outputs,
                output_device: self.output_device,
                midi: self.enable_midi,
                mpe_mode: self.mpe_mode,
            }),
    {
        EngineBuildRequest {
            inputs: self.inputs,
            outputs: self.outputs,
            output_device: self.output_device,
            midi: self.enable_midi,
            mpe_mode: self.mpe_mode,
        }
    }
}

} // verus!
