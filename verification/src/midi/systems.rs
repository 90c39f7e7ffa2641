//! MIDI synchronization: the channel routing table, event sends, and
//! hardware device connection tracking.

use vstd::prelude::*;

use vstd::string::StringExecFns;

use crate::NodeId;
use crate::midi::components::MidiReceiver;
use crate::midi::components::MpeReceiver;
use crate::midi::components::SendMidi;
use crate::midi::components::SendMidi2;
use crate::midi::events::MidiDeviceEvent;
use crate::midi::events::MidiEvent;
use crate::midi::events::MidiInputEvent;
use crate::session::Session;
use crate::session::SessionStore;

verus! {

/// The routing table the engine's MIDI subsystem is committed to: one slot
/// per channel and one fallback slot for unmatched channels.  The whole
/// table is built away from the audio thread and committed at once, so a
/// partial state is never visible.
#[derive(Debug, Clone, PartialEq, Eq)]
pub struct MidiRoutingTable {
    /// Exactly sixteen slots, one per MIDI channel.
    pub channels: Vec<Option<NodeId>>,
    /// The slot receiving data on channels with no specific binding.
    pub fallback: Option<NodeId>,
}

/// The node bound to channel `c`: the latest binding that claims `c`
/// specifically, insertion order deciding between rivals.
pub open spec fn channel_binding(receivers: Seq<MidiReceiver>, c: u8) -> Option<NodeId>
    decreases receivers.len(),
{
    if receivers.len() == 0 {
        None
    } else if receivers.last().channel == Some(c) && c < 16 {
        Some(receivers.last().node_id)
    } else {
        channel_binding(receivers.drop_last(), c)
    }
}

/// The fallback node among the unfiltered bindings: the latest wins.
pub open spec fn receiver_fallback(receivers: Seq<MidiReceiver>) -> Option<NodeId>
    decreases receivers.len(),
{
    if receivers.len() == 0 {
        None
    } else if receivers.last().channel is None {
        Some(receivers.last().node_id)
    } else {
        receiver_fallback(receivers.drop_last())
    }
}

/// The committed fallback slot: polyphonic-expression receivers are
/// inserted after the plain ones, so the last of them wins the slot; with
/// none, the last unfiltered plain binding does.
pub open spec fn fallback_binding(
    receivers: Seq<MidiReceiver>,
    mpe_receivers: Seq<MpeReceiver>,
) -> Option<NodeId> {
    if mpe_receivers.len() > 0 {
        Some(mpe_receivers.last().node_id)
    } else {
        receiver_fallback(receivers)
    }
}

/// Builds the routing table from the current bindings alone: clear, insert
/// one entry per binding, last insertion winning a contested slot.
pub fn rebuild_routing_table(
    receivers: &Vec<MidiReceiver>,
    mpe_receivers: &Vec<MpeReceiver>,
) -> (t: MidiRoutingTable)
    ensures
        t.channels@.len() == 16,
        forall|c: int| 0 <= c < 16 ==> t.channels@[c] == channel_binding(receivers@, c as u8),
        t.fallback == fallback_binding(receivers@, mpe_receivers@),
{
    let mut channels: Vec<Option<NodeId>> = Vec::new();
    let mut j: usize = 0;
    while j < 16
        invariant
            j <= 16,
            channels@.len() == j,
            forall|c: int| 0 <= c < j ==> channels@[c] is None,
        decreases 16 - j,
    {
        channels.push(None);
        j = j + 1;
    }
    let mut fallback: Option<NodeId> = None;
    let mut i: usize = 0;
    proof {
        assert(receivers@.take(0) =~= Seq::<MidiReceiver>::empty());
    }
    while i < receivers.len()
        invariant
            i <= receivers@.len(),
            channels@.len() == 16,
            forall|c: int| 0 <= c < 16 ==> channels@[c] == channel_binding(
                receivers@.take(i as int),
                c as u8,
            ),
            fallback == receiver_fallback(receivers@.take(i as int)),
        decreases receivers@.len() - i,
    {
        let r = receivers[i];
        proof {
            assert(receivers@.take(i + 1).drop_last() =~= receivers@.take(i as int));
            assert(receivers@.take(i + 1).last() == receivers@[i as int]);
        }
        match r.channel {
            Some(ch) => {
                if ch < 16 {
                    channels.set(ch as usize, Some(r.node_id));
                }
            },
            None => {
                fallback = Some(r.node_id);
            },
        }
        i = i + 1;
    }
    proof {
        assert(receivers@.take(receivers@.len() as int) =~= receivers@);
    }
    if mpe_receivers.len() > 0 {
        let last = mpe_receivers[mpe_receivers.len() - 1];
        fallback = Some(last.node_id);
    }
    MidiRoutingTable { channels, fallback }
}

/// The receiver bindings the sessions currently hold, in session order.
pub open spec fn gathered_receivers(sessions: Seq<Session>) -> Seq<MidiReceiver>
    decreases sessions.len(),
{
    if sessions.len() == 0 {
        Seq::empty()
    } else {
        gathered_receivers(sessions.drop_last()) + (match sessions.last().midi_receiver {
            Some(r) => seq![r],
            None => Seq::empty(),
        })
    }
}

/// The polyphonic-expression bindings the sessions currently hold, in
/// session order.
pub open spec fn gathered_mpe_receivers(sessions: Seq<Session>) -> Seq<MpeReceiver>
    decreases sessions.len(),
{
    if sessions.len() == 0 {
        Seq::empty()
    } else {
        gathered_mpe_receivers(sessions.drop_last()) + (match sessions.last().mpe_receiver {
            Some(r) => seq![r],
            None => Seq::empty(),
        })
    }
}

/// Collects every receiver binding currently attached to a session, in
/// session order — the insertion order the rebuild's last-wins rule goes
/// by.
pub fn collect_receiver_bindings(store: &SessionStore) -> (r: (Vec<MidiReceiver>, Vec<
    MpeReceiver,
>))
    ensures
        r.0@ == gathered_receivers(store.sessions@),
        r.1@ == gathered_mpe_receivers(store.sessions@),
{
    let mut receivers: Vec<MidiReceiver> = Vec::new();
    let mut mpe_receivers: Vec<MpeReceiver> = Vec::new();
    let n = store.len();
    let mut i: usize = 0;
    proof {
        assert(store.sessions@.take(0) =~= Seq::<Session>::empty());
    }
    while i < n
        invariant
            i <= n,
            n == store.sessions@.len(),
            receivers@ == gathered_receivers(store.sessions@.take(i as int)),
            mpe_receivers@ == gathered_mpe_receivers(store.sessions@.take(i as int)),
        decreases n - i,
    {
        proof {
            assert(store.sessions@.take(i + 1).drop_last() =~= store.sessions@.take(i as int));
            assert(store.sessions@.take(i + 1).last() == store.sessions@[i as int]);
        }
        let s = store.session_at(i);
        if let Some(r) = &s.midi_receiver {
            receivers.push(*r);
        }
        if let Some(r) = &s.mpe_receiver {
            mpe_receivers.push(*r);
        }
        i = i + 1;
    }
    proof {
        assert(store.sessions@.take(n as int) =~= store.sessions@);
    }
    (receivers, mpe_receivers)
}

/// Rebuilds the routing table only when a binding was added, changed or
/// removed since the last tick; an unchanged configuration commits nothing.
pub fn midi_routing_sync_system(
    bindings_changed: bool,
    receivers: &Vec<MidiReceiver>,
    mpe_receivers: &Vec<MpeReceiver>,
) -> (t: Option<MidiRoutingTable>)
    ensures
        bindings_changed == (t is Some),
        t matches Some(table) ==> {
            &&& table.channels@.len() == 16
            &&& forall|c: int| 0 <= c < 16 ==> table.channels@[c] == channel_binding(
                receivers@,
                c as u8,
            )
            &&& table.fallback == fallback_binding(receivers@, mpe_receivers@)
        },
{
    if bindings_changed {
        Some(rebuild_routing_table(receivers, mpe_receivers))
    } else {
        None
    }
}

/// After a commit, the table holds exactly one entry per claimed channel
/// slot, each the node of the latest binding claiming that slot, and an
/// empty slot exactly where no current binding claims it: no entry of a
/// prior configuration survives, the table being a function of the current
/// bindings alone.
pub proof fn lemma_routing_no_stale(receivers: Seq<MidiReceiver>, c: u8)
    requires
        c < 16,
    ensures
        match channel_binding(receivers, c) {
            Some(node) => exists|i: int|
                {
                    &&& 0 <= i < receivers.len()
                    &&& #[trigger] receivers[i].channel == Some(c)
                    &&& receivers[i].node_id == node
                    &&& forall|j: int| i < j < receivers.len() ==> receivers[j].channel != Some(c)
                },
            None => forall|i: int| 0 <= i < receivers.len() ==> receivers[i].channel != Some(c),
        },
    decreases receivers.len(),
{
    if receivers.len() > 0 {
        let n = receivers.len() as int;
        let prefix = receivers.drop_last();
        if receivers.last().channel == Some(c) {
            assert(receivers[n - 1].channel == Some(c));
            assert({
                &&& 0 <= n - 1 < receivers.len()
                &&& receivers[n - 1].channel == Some(c)
                &&& receivers[n - 1].node_id == channel_binding(receivers, c)->0
                &&& forall|j: int| n - 1 < j < receivers.len() ==> receivers[j].channel != Some(c)
            });
        } else {
            lemma_routing_no_stale(prefix, c);
            match channel_binding(prefix, c) {
                Some(node) => {
                    let i = choose|i: int|
                        {
                            &&& 0 <= i < prefix.len()
                            &&& #[trigger] prefix[i].channel == Some(c)
                            &&& prefix[i].node_id == node
                            &&& forall|j: int| i < j < prefix.len() ==> prefix[j].channel != Some(
                                c,
                            )
                        };
                    assert(receivers[i].channel == Some(c));
                    assert(receivers[i].node_id == node);
                    assert forall|j: int| i < j < receivers.len() implies receivers[j].channel
                        != Some(c) by {
                        if j < n - 1 {
                            assert(prefix[j] == receivers[j]);
                        }
                    }
                },
                None => {
                    assert forall|i: int| 0 <= i < receivers.len() implies receivers[i].channel
                        != Some(c) by {
                        if i < n - 1 {
                            assert(prefix[i] == receivers[i]);
                        }
                    }
                },
            }
        }
    }
}

/// The fallback slot likewise holds the latest unfiltered binding and
/// nothing else, and is empty exactly when no unfiltered binding exists.
pub proof fn lemma_fallback_no_stale(receivers: Seq<MidiReceiver>)
    ensures
        match receiver_fallback(receivers) {
            Some(node) => exists|i: int|
                {
                    &&& 0 <= i < receivers.len()
                    &&& #[trigger] receivers[i].channel is None
                    &&& receivers[i].node_id == node
                    &&& forall|j: int| i < j < receivers.len() ==> receivers[j].channel is Some
                },
            None => forall|i: int| 0 <= i < receivers.len() ==> receivers[i].channel is Some,
        },
    decreases receivers.len(),
{
    if receivers.len() > 0 {
        let n = receivers.len() as int;
        let prefix = receivers.drop_last();
        if receivers.last().channel is None {
            assert({
                &&& 0 <= n - 1 < receivers.len()
                &&& receivers[n - 1].channel is None
                &&& receivers[n - 1].node_id == receiver_fallback(receivers)->0
                &&& forall|j: int| n - 1 < j < receivers.len() ==> receivers[j].channel is Some
            });
        } else {
            lemma_fallback_no_stale(prefix);
            match receiver_fallback(prefix) {
                Some(node) => {
                    let i = choose|i: int|
                        {
                            &&& 0 <= i < prefix.len()
                            &&& #[trigger] prefix[i].channel is None
                            &&& prefix[i].node_id == node
                            &&& forall|j: int| i < j < prefix.len() ==> prefix[j].channel is Some
                        };
                    assert(receivers[i].channel is None);
                    assert forall|j: int| i < j < receivers.len() implies receivers[j].channel
                        is Some by {
                        if j < n - 1 {
                            assert(prefix[j] == receivers[j]);
                        }
                    }
                },
                None => {
                    assert forall|i: int| 0 <= i < receivers.len() implies receivers[i].channel
                        is Some by {
                        if i < n - 1 {
                            assert(prefix[i] == receivers[i]);
                        }
                    }
                },
            }
        }
    }
}

/// Wraps the MIDI events drained from the hardware input observer this
/// tick, one message per event, in arrival order.
pub fn midi_input_event_system(received: Vec<MidiEvent>) -> (events: Vec<MidiInputEvent>)
    ensures
        events@.len() == received@.len(),
        forall|i: int| 0 <= i < received@.len() ==> events@[i] == MidiInputEvent(received@[i]),
{
    let mut events: Vec<MidiInputEvent> = Vec::new();
    let mut i: usize = 0;
    while i < received.len()
        invariant
            i <= received@.len(),
            events@.len() == i,
            forall|k: int| 0 <= k < i ==> events@[k] == MidiInputEvent(received@[k]),
        decreases received@.len() - i,
    {
        events.push(MidiInputEvent(received[i]));
        i = i + 1;
    }
    events
}

/// Consumes a session's pending MIDI send; the driver queues the events on
/// the returned target.
pub fn midi_send_system(s: &mut Session) -> (send: Option<SendMidi>)
    ensures
        *final(s) == (Session { send_midi: None, ..*old(s) }),
        send == old(s).send_midi,
{
    s.send_midi.take()
}

/// Consumes a session's pending MIDI 2.0 send; the driver pushes the
/// events to the returned port.
pub fn midi2_send_system(s: &mut Session) -> (send: Option<SendMidi2>)
    ensures
        *final(s) == (Session { send_midi2: None, ..*old(s) }),
        send == old(s).send_midi2,
{
    s.send_midi2.take()
}

/// Connection state of the hardware MIDI input device, polled on a coarse
/// period so device enumeration stays off the per-tick path.
#[derive(Debug, Clone, PartialEq, Eq)]
pub struct MidiDeviceState {
    pub connected: Option<String>,
    /// When the last poll ran, in milliseconds of the driver's clock.
    pub last_check: Option<u64>,
}

impl Default for MidiDeviceState {
    fn default() -> (r: Self)
        ensures
            r.connected is None,
            r.last_check is None,
    {
        MidiDeviceState { connected: None, last_check: None }
    }
}

/// What the engine answered when asked to connect a device by name.
#[derive(Debug, Clone, PartialEq, Eq)]
pub enum MidiConnectOutcome {
    Connected,
    ConnectFailed { reason: String },
}

/// Applies the outcome of a session's connect-device intent: the intent is
/// consumed either way; success records the connected name and announces
/// it, failure changes nothing else.
pub fn midi_device_connect_system(
    s: &mut Session,
    state: &mut MidiDeviceState,
    outcome: MidiConnectOutcome,
) -> (event: Option<MidiDeviceEvent>)
    requires
        old(s).connect_midi_device is Some,
    ensures
        *final(s) == (Session { connect_midi_device: None, ..*old(s) }),
        match outcome {
            MidiConnectOutcome::Connected => {
                &&& final(state).connected matches Some(n) && n@ == old(
                    s,
                ).connect_midi_device->0.name@
                &&& final(state).last_check == old(state).last_check
                &&& event matches Some(MidiDeviceEvent::Connected { name }) && name@ == old(
                    s,
                ).connect_midi_device->0.name@
            },
            MidiConnectOutcome::ConnectFailed { .. } => {
                &&& *final(state) == *old(state)
                &&& event is None
            },
        },
{
    let connect = s.connect_midi_device.take().unwrap();
    match outcome {
        MidiConnectOutcome::Connected => {
            let announced = String::from_str(connect.name.as_str());
            state.connected = Some(connect.name);
            Some(MidiDeviceEvent::Connected { name: announced })
        },
        MidiConnectOutcome::ConnectFailed { .. } => None,
    }
}

/// Applies a session's disconnect intent: the device is dropped, and the
/// disconnection is announced only if something was connected.
pub fn midi_device_disconnect_system(s: &mut Session, state: &mut MidiDeviceState) -> (event:
    Option<MidiDeviceEvent>)
    requires
        old(s).disconnect_midi_device,
    ensures
        *final(s) == (Session { disconnect_midi_device: false, ..*old(s) }),
        final(state).connected is None,
        final(state).last_check == old(state).last_check,
        event == (if old(state).connected is Some {
            Some(MidiDeviceEvent::Disconnected)
        } else {
            None::<MidiDeviceEvent>
        }),
{
    s.disconnect_midi_device = false;
    let was_connected = state.connected.is_some();
    state.connected = None;
    if was_connected {
        Some(MidiDeviceEvent::Disconnected)
    } else {
        None
    }
}

/// Whether the device poll is still inside its quiet period.
pub open spec fn poll_throttled(last_check: Option<u64>, now_millis: u64) -> bool {
    last_check matches Some(t) && (now_millis < t || now_millis - t < 2000)
}

/// Polls the device connection on a two-second period: announces a
/// disappeared device, adopts a newly seen name, and does nothing while
/// the quiet period lasts.
pub fn midi_device_poll_system(
    state: &mut MidiDeviceState,
    now_millis: u64,
    currently_connected: Option<String>,
) -> (event: Option<MidiDeviceEvent>)
    ensures
        poll_throttled(old(state).last_check, now_millis) ==> {
            &&& *final(state) == *old(state)
            &&& event is None
        },
        !poll_throttled(old(state).last_check, now_millis) ==> {
            &&& final(state).last_check == Some(now_millis)
            &&& match currently_connected {
                Some(name) => {
                    &&& final(state).connected == Some(name)
                    &&& event is None
                },
                None => {
                    &&& final(state).connected is None
                    &&& event == (if old(state).connected is Some {
                        Some(MidiDeviceEvent::Disconnected)
                    } else {
                        None::<MidiDeviceEvent>
                    })
                },
            }
        },
{
    if let Some(t) = state.last_check {
        if now_millis < t || now_millis - t < 2000 {
            return None;
        }
    }
    state.last_check = Some(now_millis);
    match currently_connected {
        Some(name) => {
            state.connected = Some(name);
            None
        },
        None => {
            let was_connected = state.connected.is_some();
            state.connected = None;
            if was_connected {
                Some(MidiDeviceEvent::Disconnected)
            } else {
                None
            }
        },
    }
}

/// Which end of the channel range the polyphonic-expression zone occupies.
#[derive(Clone, Copy, Debug, PartialEq, Eq, Structural)]
pub enum MpeMode {
    LowerZone,
    UpperZone,
}

/// The per-note expression values the engine publishes for one active
/// note, all in thousandths: bend is `-1000..=1000`, pressure and slide
/// `0..=1000`.
#[derive(Clone, Copy, Debug, PartialEq, Eq, Structural)]
pub struct MpeNoteState {
    pub note: u8,
    pub pitch_bend: i32,
    pub pressure: u32,
    pub slide: u32,
}

/// Control-plane mirror of the engine's polyphonic-expression state: the
/// zone configuration and one entry per active note.
#[derive(Debug, Clone, PartialEq, Eq)]
pub struct MpeExpressionResource {
    pub enabled: bool,
    pub mode: MpeMode,
    pub notes: Vec<MpeNoteState>,
}

/// The first mirrored entry for `note`, if the note is active.
pub open spec fn mpe_note_state(notes: Seq<MpeNoteState>, note: u8) -> Option<MpeNoteState>
    decreases notes.len(),
{
    if notes.len() == 0 {
        None
    } else if notes.first().note == note {
        Some(notes.first())
    } else {
        mpe_note_state(notes.drop_first(), note)
    }
}

impl MpeExpressionResource {
    /// Combined per-note and global pitch bend, thousandths; zero for an
    /// inactive note.
    pub fn pitch_bend(&self, note: u8) -> (r: i32)
        ensures
            r == (match mpe_note_state(self.notes@, note) {
                Some(n) => n.pitch_bend,
                None => 0,
            }),
    {
        match self.find_note(note) {
            Some(n) => n.pitch_bend,
            None => 0,
        }
    }

    /// The larger of per-note and global pressure, thousandths; zero for
    /// an inactive note.
    pub fn pressure(&self, note: u8) -> (r: u32)
        ensures
            r == (match mpe_note_state(self.notes@, note) {
                Some(n) => n.pressure,
                None => 0,
            }),
    {
        match self.find_note(note) {
            Some(n) => n.pressure,
            None => 0,
        }
    }

    /// The slide controller, thousandths; centered for an inactive note.
    pub fn slide(&self, note: u8) -> (r: u32)
        ensures
            r == (match mpe_note_state(self.notes@, note) {
                Some(n) => n.slide,
                None => 500,
            }),
    {
        match self.find_note(note) {
            Some(n) => n.slide,
            None => 500,
        }
    }

    pub fn is_note_active(&self, note: u8) -> (r: bool)
        ensures
            r == (mpe_note_state(self.notes@, note) is Some),
    {
        self.find_note(note).is_some()
    }

    pub fn mode(&self) -> (r: MpeMode)
        ensures
            r == self.mode,
    {
        self.mode
    }

    pub fn is_enabled(&self) -> (r: bool)
        ensures
            r == self.enabled,
    {
        self.enabled
    }

    fn find_note(&self, note: u8) -> (r: Option<MpeNoteState>)
        ensures
            r == mpe_note_state(self.notes@, note),
    {
        let mut i: usize = 0;
        proof {
            assert(self.notes@.skip(0) =~= self.notes@);
        }
        while i < self.notes.len()
            invariant
                i <= self.notes@.len(),
                mpe_note_state(self.notes@, note) == mpe_note_state(self.notes@.skip(i as int), note),
            decreases self.notes@.len() - i,
        {
            if self.notes[i].note == note {
                proof {
                    assert(self.notes@.skip(i as int).first() == self.notes@[i as int]);
                }
                return Some(self.notes[i]);
            }
            proof {
                assert(self.notes@.skip(i as int).drop_first() =~= self.notes@.skip(i + 1));
            }
            i = i + 1;
        }
        None
    }
}

} // verus!
