//! Audio output device state mirrored from the engine once per tick.

use vstd::prelude::*;

verus! {

/// Control-plane copy of the engine's output device state.
#[derive(Debug, Clone, PartialEq, Eq)]
pub struct AudioDeviceState {
    pub output_devices: Vec<String>,
    pub current_device: String,
    pub is_running: bool,
    pub channels: usize,
}

impl Default for AudioDeviceState {
    fn default() -> (r: Self)
        ensures
            r.output_devices@ =~= Seq::<String>::empty(),
            r.current_device@ =~= Seq::<char>::empty(),
            !r.is_running,
            r.channels == 2,
    {
        AudioDeviceState {
            output_devices: Vec::new(),
            current_device: String::new(),
            is_running: false,
            channels: 2,
        }
    }
}

/// What the driver read from the engine about devices this tick.  The name
/// and the enumeration are optional because either read can fail without
/// invalidating the rest.
#[derive(Debug, Clone, PartialEq, Eq)]
pub struct DeviceSnapshot {
    pub is_running: bool,
    pub channels: usize,
    pub current_device: Option<String>,
    pub output_devices: Option<Vec<String>>,
}

/// Mirrors the engine's device state wholesale: the running flag and
/// channel count are always taken, and the current name and the device
/// list replace the prior values whenever their reads succeeded — a
/// same-length enumeration with different content replaces the list like
/// any other.
pub fn device_state_sync_system(state: &mut AudioDeviceState, snapshot: Option<DeviceSnapshot>)
    ensures
        snapshot is None ==> *final(state) == *old(state),
        snapshot matches Some(d) ==> {
            &&& final(state).is_running == d.is_running
            &&& final(state).channels == d.channels
            &&& final(state).current_device == (match d.current_device {
                Some(name) => name,
                None => old(state).current_device,
            })
            &&& final(state).output_devices == (match d.output_devices {
                Some(devices) => devices,
                None => old(state).output_devices,
            })
        },
{
    let d = match snapshot {
        Some(d) => d,
        None => {
            return ;
        },
    };
    state.is_running = d.is_running;
    state.channels = d.channels;
    if let Some(name) = d.current_device {
        state.current_device = name;
    }
    if let Some(devices) = d.output_devices {
        state.output_devices = devices;
    }
}

} // verus!
