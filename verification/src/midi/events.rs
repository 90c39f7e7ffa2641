//! MIDI events as the control plane sees them.

use vstd::prelude::*;

verus! {

/// A MIDI 1.0 channel voice message.
#[derive(Clone, Copy, Debug, PartialEq, Eq, Structural)]
pub enum MidiEvent {
    NoteOn { channel: u8, note: u8, velocity: u8 },
    NoteOff { channel: u8, note: u8, velocity: u8 },
    ControlChange { channel: u8, controller: u8, value: u8 },
    PitchBend { channel: u8, value: u16 },
}

impl MidiEvent {
    /// The channel the message addresses.
    pub open spec fn spec_channel(self) -> u8 {
        match self {
            MidiEvent::NoteOn { channel, .. } => channel,
            MidiEvent::NoteOff { channel, .. } => channel,
            MidiEvent::ControlChange { channel, .. } => channel,
            MidiEvent::PitchBend { channel, .. } => channel,
        }
    }
}

/// One MIDI event received from hardware input, handed to the control plane
/// once per tick by the driver that drains the input observer.
#[derive(Clone, Copy, Debug, PartialEq, Eq, Structural)]
pub struct MidiInputEvent(pub MidiEvent);

impl MidiInputEvent {
    pub fn is_note_on(&self) -> (r: bool)
        ensures
            r == (self.0 is NoteOn),
    {
        match self.0 {
            MidiEvent::NoteOn { .. } => true,
            _ => false,
        }
    }

    pub fn is_note_off(&self) -> (r: bool)
        ensures
            r == (self.0 is NoteOff),
    {
        match self.0 {
            MidiEvent::NoteOff { .. } => true,
            _ => false,
        }
    }

    /// The note number, for note messages; nothing otherwise.
    pub fn note(&self) -> (r: Option<u8>)
        ensures
            r == (match self.0 {
                MidiEvent::NoteOn { note, .. } => Some(note),
                MidiEvent::NoteOff { note, .. } => Some(note),
                _ => None::<u8>,
            }),
    {
        match self.0 {
            MidiEvent::NoteOn { note, .. } => Some(note),
            MidiEvent::NoteOff { note, .. } => Some(note),
            _ => None,
        }
    }

    /// The velocity, for note messages; nothing otherwise.
    pub fn velocity(&self) -> (r: Option<u8>)
        ensures
            r == (match self.0 {
                MidiEvent::NoteOn { velocity, .. } => Some(velocity),
                MidiEvent::NoteOff { velocity, .. } => Some(velocity),
                _ => None::<u8>,
            }),
    {
        match self.0 {
            MidiEvent::NoteOn { velocity, .. } => Some(velocity),
            MidiEvent::NoteOff { velocity, .. } => Some(velocity),
            _ => None,
        }
    }

    pub fn channel(&self) -> (r: u8)
        ensures
            r == self.0.spec_channel(),
    {
        match self.0 {
            MidiEvent::NoteOn { channel, .. } => channel,
            MidiEvent::NoteOff { channel, .. } => channel,
            MidiEvent::ControlChange { channel, .. } => channel,
            MidiEvent::PitchBend { channel, .. } => channel,
        }
    }

    pub fn event(&self) -> (r: &MidiEvent)
        ensures
            r == self.0,
    {
        &self.0
    }
}

/// Connection state changes of the hardware MIDI input device.
#[derive(Clone, Debug, PartialEq, Eq)]
pub enum MidiDeviceEvent {
    Connected { name: String },
    Disconnected,
}

} // verus!
