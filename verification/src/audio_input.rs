//! Audio input capture: control intents and the mirrored input state.

use vstd::prelude::*;

use crate::session::Session;

verus! {

/// One selectable input device, as the engine enumerates them.
#[derive(Debug, Clone, PartialEq, Eq)]
pub struct AudioInputDeviceInfo {
    pub index: usize,
    pub name: String,
}

/// Control-plane copy of the engine's input state: the capture peak level
/// in thousandths, and the device list.
#[derive(Debug, Clone, PartialEq, Eq)]
pub struct AudioInputState {
    pub peak_level: u32,
    pub devices: Vec<AudioInputDeviceInfo>,
}

impl Default for AudioInputState {
    fn default() -> (r: Self)
        ensures
            r.peak_level == 0,
            r.devices@ =~= Seq::<AudioInputDeviceInfo>::empty(),
    {
        AudioInputState { peak_level: 0, devices: Vec::new() }
    }
}

/// The input-configuration calls the driver owes the engine after the
/// control stage consumed a session's intents, in the order they are
/// listed.
#[derive(Clone, Copy, Debug, PartialEq, Eq, Structural)]
pub struct AudioInputCommands {
    pub select_device: Option<usize>,
    /// Thousandths.
    pub set_gain: Option<u32>,
    pub set_monitoring: Option<bool>,
}

/// The commands a session's pending input intents amount to: an enable
/// intent selects its device (when one is named) and sets gain and
/// monitoring; a disable intent turns monitoring off, and wins over a
/// simultaneous enable.
pub open spec fn audio_input_commands(s: Session) -> AudioInputCommands {
    let enable = s.enable_audio_input;
    AudioInputCommands {
        select_device: if enable is Some {
            enable->0.device_index
        } else {
            None
        },
        set_gain: if enable is Some {
            Some(enable->0.gain)
        } else {
            None
        },
        set_monitoring: if s.disable_audio_input {
            Some(false)
        } else if enable is Some {
            Some(enable->0.monitoring)
        } else {
            None
        },
    }
}

/// Consumes a session's enable and disable input intents, per
/// [`audio_input_commands`].
pub fn audio_input_control_system(s: &mut Session) -> (cmds: AudioInputCommands)
    ensures
        *final(s) == (Session {
            enable_audio_input: None,
            disable_audio_input: false,
            ..*old(s)
        }),
        cmds == audio_input_commands(*old(s)),
{
    let enable = s.enable_audio_input.take();
    let disable = s.disable_audio_input;
    s.disable_audio_input = false;
    let select_device = match &enable {
        Some(e) => e.device_index,
        None => None,
    };
    let set_gain = match &enable {
        Some(e) => Some(e.gain),
        None => None,
    };
    let set_monitoring = if disable {
        Some(false)
    } else {
        match &enable {
            Some(e) => Some(e.monitoring),
            None => None,
        }
    };
    AudioInputCommands { select_device, set_gain, set_monitoring }
}

/// What the driver read from the engine's sampler about input this tick.
#[derive(Debug, Clone, PartialEq, Eq)]
pub struct AudioInputSnapshot {
    pub peak_level: u32,
    pub devices: Vec<AudioInputDeviceInfo>,
}

/// Mirrors the input state wholesale: the snapshot's peak level and device
/// list replace the prior values — a same-length enumeration with
/// different content replaces the list like any other.
pub fn audio_input_sync_system(state: &mut AudioInputState, snapshot: Option<AudioInputSnapshot>)
    ensures
        snapshot is None ==> *final(state) == *old(state),
        snapshot matches Some(d) ==> {
            &&& final(state).peak_level == d.peak_level
            &&& final(state).devices == d.devices
        },
{
    let d = match snapshot {
        Some(d) => d,
        None => {
            return ;
        },
    };
    state.peak_level = d.peak_level;
    state.devices = d.devices;
}

} // verus!
