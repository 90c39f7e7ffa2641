//! MIDI intents and receiver bindings.

use vstd::prelude::*;

use crate::NodeId;
use crate::midi::events::MidiEvent;

verus! {

/// One-shot intent: queue MIDI 1.0 events for a target node.  Consumed by
/// the send stage on the tick that observes it.
#[derive(Debug, Clone, PartialEq, Eq)]
pub struct SendMidi {
    pub target: NodeId,
    pub events: Vec<MidiEvent>,
}

impl SendMidi {
    pub fn note_on(target: NodeId, note: u8, velocity: u8) -> (r: Self)
        ensures
            r.target == target,
            r.events@ =~= seq![MidiEvent::NoteOn { channel: 0, note, velocity }],
    {
        let mut events: Vec<MidiEvent> = Vec::new();
        events.push(MidiEvent::NoteOn { channel: 0, note, velocity });
        SendMidi { target, events }
    }

    pub fn note_off(target: NodeId, note: u8) -> (r: Self)
        ensures
            r.target == target,
            r.events@ =~= seq![MidiEvent::NoteOff { channel: 0, note, velocity: 0 }],
    {
        let mut events: Vec<MidiEvent> = Vec::new();
        events.push(MidiEvent::NoteOff { channel: 0, note, velocity: 0 });
        SendMidi { target, events }
    }

    pub fn cc(target: NodeId, channel: u8, controller: u8, value: u8) -> (r: Self)
        ensures
            r.target == target,
            r.events@ =~= seq![MidiEvent::ControlChange { channel, controller, value }],
    {
        let mut events: Vec<MidiEvent> = Vec::new();
        events.push(MidiEvent::ControlChange { channel, controller, value });
        SendMidi { target, events }
    }

    pub fn pitch_bend(target: NodeId, channel: u8, value: u16) -> (r: Self)
        ensures
            r.target == target,
            r.events@ =~= seq![MidiEvent::PitchBend { channel, value }],
    {
        let mut events: Vec<MidiEvent> = Vec::new();
        events.push(MidiEvent::PitchBend { channel, value });
        SendMidi { target, events }
    }

    pub fn events(target: NodeId, events: Vec<MidiEvent>) -> (r: Self)
        ensures
            r.target == target,
            r.events == events,
    {
        SendMidi { target, events }
    }
}

/// Routes hardware MIDI input to a graph node.  `channel` of `None` means
/// the binding claims the fallback slot and receives all unmatched channels.
#[derive(Clone, Copy, Debug, PartialEq, Eq, Structural)]
pub struct MidiReceiver {
    pub node_id: NodeId,
    pub channel: Option<u8>,
}

/// One-shot intent: connect to a MIDI input device by name.
#[derive(Debug, Clone, PartialEq, Eq)]
pub struct ConnectMidiDevice {
    pub name: String,
}

/// Routes all MIDI channels to one synthesizer through the fallback slot,
/// the standard arrangement for polyphonic expression.
#[derive(Clone, Copy, Debug, PartialEq, Eq, Structural)]
pub struct MpeReceiver {
    pub node_id: NodeId,
}

/// A MIDI 2.0 message with high-resolution values.
#[derive(Clone, Copy, Debug, PartialEq, Eq, Structural)]
pub enum Midi2Event {
    NoteOn { channel: u8, note: u8, velocity: u16 },
    NoteOff { channel: u8, note: u8, velocity: u16 },
    PerNotePitchBend { channel: u8, note: u8, bend: u32 },
    ControlChange { channel: u8, index: u8, value: u32 },
}

/// The 32-bit pitch-bend value for a normalized bend in thousandths:
/// the center of the range, offset by the proportional part of the
/// half-range in the bend's direction.
pub open spec fn pitch_bend_wide(bend: int) -> int
    recommends
        -1000 <= bend <= 1000,
{
    if bend >= 0 {
        0x8000_0000 + bend * 0x7FFF_FFFF / 1000
    } else {
        0x8000_0000 - (-bend) * 0x7FFF_FFFF / 1000
    }
}

/// One-shot intent: push MIDI 2.0 events to an input port.  Normalized
/// parameters are thousandths and are widened to the wire resolution here.
#[derive(Debug, Clone, PartialEq, Eq)]
pub struct SendMidi2 {
    pub port: usize,
    pub events: Vec<Midi2Event>,
}

impl SendMidi2 {
    /// `velocity` is thousandths of full scale, widened to 16 bits.
    pub fn note_on(note: u8, velocity: u32, channel: u8) -> (r: Self)
        requires
            velocity <= 1000,
        ensures
            r.port == 0,
            r.events@ =~= seq![Midi2Event::NoteOn {
                channel,
                note,
                velocity: (velocity * 0xFFFF / 1000) as u16,
            }],
    {
        let wide: u16 = ((velocity as u64) * 0xFFFF / 1000) as u16;
        let mut events: Vec<Midi2Event> = Vec::new();
        events.push(Midi2Event::NoteOn { channel, note, velocity: wide });
        SendMidi2 { port: 0, events }
    }

    /// `velocity` is thousandths of full scale, widened to 16 bits.
    pub fn note_off(note: u8, velocity: u32, channel: u8) -> (r: Self)
        requires
            velocity <= 1000,
        ensures
            r.port == 0,
            r.events@ =~= seq![Midi2Event::NoteOff {
                channel,
                note,
                velocity: (velocity * 0xFFFF / 1000) as u16,
            }],
    {
        let wide: u16 = ((velocity as u64) * 0xFFFF / 1000) as u16;
        let mut events: Vec<Midi2Event> = Vec::new();
        events.push(Midi2Event::NoteOff { channel, note, velocity: wide });
        SendMidi2 { port: 0, events }
    }

    /// `bend` is thousandths, `-1000` to `1000` with `0` at center; mapped
    /// onto the 32-bit range around the center value.
    pub fn per_note_pitch_bend(note: u8, bend: i32, channel: u8) -> (r: Self)
        requires
            -1000 <= bend <= 1000,
        ensures
            r.port == 0,
            r.events@ =~= seq![Midi2Event::PerNotePitchBend {
                channel,
                note,
                bend: pitch_bend_wide(bend as int) as u32,
            }],
    {
        let wide: u32 = if bend >= 0 {
            let offset: u64 = (bend as u64) * 0x7FFF_FFFF / 1000;
            proof {
                assert((bend as int) * 0x7FFF_FFFF / 1000 <= 0x7FFF_FFFF) by (nonlinear_arith)
                    requires 0 <= bend as int <= 1000;
            }
            (0x8000_0000u64 + offset) as u32
        } else {
            let magnitude: u64 = ((-bend) as u64) * 0x7FFF_FFFF / 1000;
            proof {
                assert(-(bend as int) * 0x7FFF_FFFF / 1000 <= 0x7FFF_FFFF) by (nonlinear_arith)
                    requires 0 < -(bend as int) <= 1000;
            }
            (0x8000_0000u64 - magnitude) as u32
        };
        let mut events: Vec<Midi2Event> = Vec::new();
        events.push(Midi2Event::PerNotePitchBend { channel, note, bend: wide });
        SendMidi2 { port: 0, events }
    }

    /// `value` is thousandths of full scale, widened to 32 bits.
    pub fn cc(controller: u8, value: u32, channel: u8) -> (r: Self)
        requires
            value <= 1000,
        ensures
            r.port == 0,
            r.events@ =~= seq![Midi2Event::ControlChange {
                channel,
                index: controller,
                value: (value * 0xFFFF_FFFF / 1000) as u32,
            }],
    {
        let wide: u32 = ((value as u64) * 0xFFFF_FFFF / 1000) as u32;
        let mut events: Vec<Midi2Event> = Vec::new();
        events.push(Midi2Event::ControlChange { channel, index: controller, value: wide });
        SendMidi2 { port: 0, events }
    }

    pub fn events(port: usize, events: Vec<Midi2Event>) -> (r: Self)
        ensures
            r.port == port,
            r.events == events,
    {
        SendMidi2 { port, events }
    }
}

} // verus!
