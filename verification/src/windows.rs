//! The backend for the platform whose input interface is open to every
//! process. A shortcut is four keyboard inputs, control down, key down, key
//! up, control up, each handed to the system after a short sleep and each
//! carrying the scan code the system maps its virtual key to.

use crate::error::{SimulationError, Stage};
use crate::native::{
    Desktop, Key, KeyboardInput, NativeCall, Stroke, KEYEVENTF_KEYUP, MAPVK_VK_TO_VSC,
};
use vstd::prelude::*;

verus! {

/// Virtual-key code of the control key.
pub const VK_CONTROL: u16 = 0x11;

/// Virtual-key code of the `C` key.
pub const VK_C: u16 = 0x43;

/// Virtual-key code of the `V` key.
pub const VK_V: u16 = 0x56;

/// The sleep before each keyboard input, in milliseconds.
pub const KEY_DELAY_MILLIS: u64 = 10;

/// The permission to synthesise input: there is nothing to grant.
pub fn check_permissions() -> (granted: bool)
    ensures
        granted,
{
    true
}

/// The request for that permission: there is nothing to ask for.
pub fn request_permissions() -> (initiated: bool)
    ensures
        initiated,
{
    true
}

/// Where the sending of one keyboard input stands.
#[derive(Clone, Copy, Debug, PartialEq, Eq, Structural)]
pub enum KeyEventPhase {
    /// The virtual key is being mapped to its scan code.
    Mapping,
    /// The input is being handed to the system.
    Sending(KeyboardInput),
    /// The system inserted the input.
    Sent,
    /// The system did not insert the input.
    Rejected,
}

/// The sending of one key going down or coming up.
#[derive(Clone, Copy, Debug, PartialEq, Eq, Structural)]
pub struct KeyEvent {
    pub key_code: u16,
    pub key_up: bool,
    pub phase: KeyEventPhase,
}

/// The keyboard input for a key whose virtual-key code the system mapped to
/// `mapped`: the scan code is the low sixteen bits of `mapped`.
pub open spec fn input_for(key_code: u16, key_up: bool, mapped: u32) -> KeyboardInput {
    KeyboardInput {
        virtual_key: key_code,
        scan_code: (mapped % 0x1_0000) as u16,
        flags: if key_up {
            KEYEVENTF_KEYUP
        } else {
            0
        },
        time: 0,
        extra_info: 0,
    }
}

/// Builds the keyboard input for a key from what the system mapped its
/// virtual-key code to.
pub fn keyboard_input(key_code: u16, key_up: bool, mapped: u32) -> (input: KeyboardInput)
    ensures
        input == input_for(key_code, key_up, mapped),
{
    let flags: u32 = if key_up {
        KEYEVENTF_KEYUP
    } else {
        0
    };
    KeyboardInput {
        virtual_key: key_code,
        scan_code: (mapped % 0x1_0000) as u16,
        flags,
        time: 0,
        extra_info: 0,
    }
}

impl KeyEvent {
    /// The sending of a key before anything was done for it.
    pub open spec fn start(key_code: u16, key_up: bool) -> KeyEvent {
        KeyEvent { key_code, key_up, phase: KeyEventPhase::Mapping }
    }

    /// An input that is being sent is one built for this key.
    pub open spec fn wf(self) -> bool {
        self.phase matches KeyEventPhase::Sending(input) ==> input == input_for(
            self.key_code,
            self.key_up,
            input.scan_code as u32,
        )
    }

    /// The native call the sending waits for, if it has not ended.
    pub open spec fn spec_pending(&self) -> Option<NativeCall> {
        match self.phase {
            KeyEventPhase::Mapping => Some(
                NativeCall::MapVirtualKey { virtual_key: self.key_code, map_type: MAPVK_VK_TO_VSC },
            ),
            KeyEventPhase::Sending(input) => Some(NativeCall::SendKeyboardInput { input }),
            KeyEventPhase::Sent | KeyEventPhase::Rejected => None,
        }
    }

    /// The sending after the pending call has returned. The system inserted
    /// the input if it reports one input inserted.
    pub open spec fn spec_resume(self, returned: u32) -> KeyEvent {
        let phase = match self.phase {
            KeyEventPhase::Mapping => KeyEventPhase::Sending(
                input_for(self.key_code, self.key_up, returned),
            ),
            KeyEventPhase::Sending(_) => if returned == 1 {
                KeyEventPhase::Sent
            } else {
                KeyEventPhase::Rejected
            },
            KeyEventPhase::Sent => KeyEventPhase::Sent,
            KeyEventPhase::Rejected => KeyEventPhase::Rejected,
        };
        KeyEvent { phase, ..self }
    }

    /// How the sending ended, if it has.
    pub open spec fn spec_verdict(&self) -> Option<Result<(), SimulationError>> {
        match self.phase {
            KeyEventPhase::Sent => Some(Ok(())),
            KeyEventPhase::Rejected => Some(
                Err(SimulationError::NativeApiFailure(Stage::SendInput)),
            ),
            _ => None,
        }
    }

    #[verifier::when_used_as_spec(spec_pending)]
    pub fn pending(&self) -> (call: Option<NativeCall>)
        ensures
            call == self.spec_pending(),
            call is None <==> self.spec_verdict() is Some,
    {
        match self.phase {
            KeyEventPhase::Mapping => Some(
                NativeCall::MapVirtualKey { virtual_key: self.key_code, map_type: MAPVK_VK_TO_VSC },
            ),
            KeyEventPhase::Sending(input) => Some(NativeCall::SendKeyboardInput { input }),
            KeyEventPhase::Sent | KeyEventPhase::Rejected => None,
        }
    }

    #[verifier::when_used_as_spec(spec_resume)]
    pub fn resume(self, returned: u32) -> (next: KeyEvent)
        ensures
            next == self.spec_resume(returned),
            self.wf() ==> next.wf(),
    {
        let phase = match self.phase {
            KeyEventPhase::Mapping => KeyEventPhase::Sending(
                keyboard_input(self.key_code, self.key_up, returned),
            ),
            KeyEventPhase::Sending(_) => if returned == 1 {
                KeyEventPhase::Sent
            } else {
                KeyEventPhase::Rejected
            },
            KeyEventPhase::Sent => KeyEventPhase::Sent,
            KeyEventPhase::Rejected => KeyEventPhase::Rejected,
        };
        KeyEvent { key_code: self.key_code, key_up: self.key_up, phase }
    }

    #[verifier::when_used_as_spec(spec_verdict)]
    pub fn verdict(&self) -> (verdict: Option<Result<(), SimulationError>>)
        ensures
            verdict == self.spec_verdict(),
    {
        match self.phase {
            KeyEventPhase::Sent => Some(Ok(())),
            KeyEventPhase::Rejected => Some(
                Err(SimulationError::NativeApiFailure(Stage::SendInput)),
            ),
            _ => None,
        }
    }
}

/// Begins the sending of the key with `key_code` going down, or coming up if
/// `key_up` is set.
pub fn send_key_event(key_code: u16, key_up: bool) -> (event: KeyEvent)
    ensures
        event == KeyEvent::start(key_code, key_up),
{
    KeyEvent { key_code, key_up, phase: KeyEventPhase::Mapping }
}

/// The four events of a shortcut, in the order they are sent.
#[derive(Clone, Copy, Debug, PartialEq, Eq, Structural)]
pub enum Event {
    ControlDown,
    KeyDown,
    KeyUp,
    ControlUp,
}

impl Event {
    /// The place of the event among the four, from zero.
    pub open spec fn index(self) -> nat {
        match self {
            Event::ControlDown => 0,
            Event::KeyDown => 1,
            Event::KeyUp => 2,
            Event::ControlUp => 3,
        }
    }

    /// The event sent after this one.
    pub open spec fn successor(self) -> Option<Event> {
        match self {
            Event::ControlDown => Some(Event::KeyDown),
            Event::KeyDown => Some(Event::KeyUp),
            Event::KeyUp => Some(Event::ControlUp),
            Event::ControlUp => None,
        }
    }

    /// The virtual key the event moves, in a shortcut with `key_code`.
    pub open spec fn virtual_key(self, key_code: u16) -> u16 {
        match self {
            Event::ControlDown | Event::ControlUp => VK_CONTROL,
            Event::KeyDown | Event::KeyUp => key_code,
        }
    }

    /// Whether the event lets its key come up.
    pub open spec fn key_up(self) -> bool {
        self is KeyUp || self is ControlUp
    }

    pub fn next(&self) -> (next: Option<Event>)
        ensures
            next == self.successor(),
    {
        match self {
            Event::ControlDown => Some(Event::KeyDown),
            Event::KeyDown => Some(Event::KeyUp),
            Event::KeyUp => Some(Event::ControlUp),
            Event::ControlUp => None,
        }
    }

    /// Begins the sending of this event in a shortcut with `key_code`.
    pub fn send(&self, key_code: u16) -> (sending: KeyEvent)
        ensures
            sending == KeyEvent::start(self.virtual_key(key_code), self.key_up()),
    {
        match self {
            Event::ControlDown => send_key_event(VK_CONTROL, false),
            Event::KeyDown => send_key_event(key_code, false),
            Event::KeyUp => send_key_event(key_code, true),
            Event::ControlUp => send_key_event(VK_CONTROL, true),
        }
    }
}

/// Where a simulation stands.
#[derive(Clone, Copy, Debug, PartialEq, Eq, Structural)]
pub enum ControlPhase {
    /// The sleep before the given event.
    Waiting(Event),
    /// The sending of the given event.
    Sending(Event, KeyEvent),
    /// All four events were inserted.
    Done,
    /// The system did not insert the given event; none was sent after it.
    Failed(Event),
}

/// One simulation of the control key together with another key.
#[derive(Clone, Copy, Debug, PartialEq, Eq, Structural)]
pub struct ControlShortcut {
    pub key_code: u16,
    pub phase: ControlPhase,
}

impl ControlShortcut {
    /// A simulation before anything was done for it.
    pub open spec fn start(key_code: u16) -> ControlShortcut {
        ControlShortcut { key_code, phase: ControlPhase::Waiting(Event::ControlDown) }
    }

    /// A sending that is under way is that of the event it stands for and
    /// has not ended.
    pub open spec fn wf(self) -> bool {
        self.phase matches ControlPhase::Sending(event, sending) ==> {
            &&& sending.key_code == event.virtual_key(self.key_code)
            &&& sending.key_up == event.key_up()
            &&& sending.spec_verdict() is None
            &&& sending.wf()
        }
    }

    /// The native call the simulation waits for, if it has not ended.
    pub open spec fn spec_pending(&self) -> Option<NativeCall> {
        match self.phase {
            ControlPhase::Waiting(_) => Some(NativeCall::Sleep { millis: KEY_DELAY_MILLIS }),
            ControlPhase::Sending(_, sending) => sending.spec_pending(),
            ControlPhase::Done | ControlPhase::Failed(_) => None,
        }
    }

    /// The simulation after the pending call has returned. An event that was
    /// inserted is followed by the sleep before the next one, or by the end;
    /// an event that was not inserted ends the simulation at once. A
    /// simulation that has ended stays as it is.
    pub open spec fn spec_resume(self, returned: u32) -> ControlShortcut {
        let phase = match self.phase {
            ControlPhase::Waiting(event) => ControlPhase::Sending(
                event,
                KeyEvent::start(event.virtual_key(self.key_code), event.key_up()),
            ),
            ControlPhase::Sending(event, sending) => {
                let sending = sending.spec_resume(returned);
                match sending.spec_verdict() {
                    None => ControlPhase::Sending(event, sending),
                    Some(Ok(_)) => match event.successor() {
                        Some(next) => ControlPhase::Waiting(next),
                        None => ControlPhase::Done,
                    },
                    Some(Err(_)) => ControlPhase::Failed(event),
                }
            },
            ControlPhase::Done => ControlPhase::Done,
            ControlPhase::Failed(event) => ControlPhase::Failed(event),
        };
        ControlShortcut { phase, ..self }
    }

    /// How the simulation ended, if it has.
    pub open spec fn spec_verdict(&self) -> Option<Result<(), SimulationError>> {
        match self.phase {
            ControlPhase::Done => Some(Ok(())),
            ControlPhase::Failed(_) => Some(
                Err(SimulationError::NativeApiFailure(Stage::SendInput)),
            ),
            _ => None,
        }
    }

    /// An upper bound on the native calls still to come.
    pub open spec fn calls_left(self) -> nat {
        match self.phase {
            ControlPhase::Waiting(event) => (12 - 3 * event.index()) as nat,
            ControlPhase::Sending(event, sending) => (if sending.phase is Mapping {
                11 - 3 * event.index()
            } else {
                10 - 3 * event.index()
            }) as nat,
            ControlPhase::Done | ControlPhase::Failed(_) => 0,
        }
    }

    #[verifier::when_used_as_spec(spec_pending)]
    pub fn pending(&self) -> (call: Option<NativeCall>)
        ensures
            call == self.spec_pending(),
            self.wf() ==> (call is None <==> self.spec_verdict() is Some),
            self.wf() ==> (call is None <==> self.calls_left() == 0),
    {
        match self.phase {
            ControlPhase::Waiting(_) => Some(NativeCall::Sleep { millis: KEY_DELAY_MILLIS }),
            ControlPhase::Sending(_, sending) => sending.pending(),
            ControlPhase::Done | ControlPhase::Failed(_) => None,
        }
    }

    #[verifier::when_used_as_spec(spec_resume)]
    pub fn resume(self, returned: u32) -> (next: ControlShortcut)
        ensures
            next == self.spec_resume(returned),
            self.wf() ==> next.wf(),
            self.wf() && self.spec_pending() is Some ==> next.calls_left() < self.calls_left(),
            self.spec_verdict() is Some ==> next == self,
    {
        let phase = match self.phase {
            ControlPhase::Waiting(event) => ControlPhase::Sending(event, event.send(self.key_code)),
            ControlPhase::Sending(event, sending) => {
                let sending = sending.resume(returned);
                match sending.verdict() {
                    None => ControlPhase::Sending(event, sending),
                    Some(Ok(_)) => match event.next() {
                        Some(next) => ControlPhase::Waiting(next),
                        None => ControlPhase::Done,
                    },
                    Some(Err(_)) => ControlPhase::Failed(event),
                }
            },
            ControlPhase::Done => ControlPhase::Done,
            ControlPhase::Failed(event) => ControlPhase::Failed(event),
        };
        ControlShortcut { key_code: self.key_code, phase }
    }

    #[verifier::when_used_as_spec(spec_verdict)]
    pub fn verdict(&self) -> (verdict: Option<Result<(), SimulationError>>)
        ensures
            verdict == self.spec_verdict(),
    {
        match self.phase {
            ControlPhase::Done => Some(Ok(())),
            ControlPhase::Failed(_) => Some(
                Err(SimulationError::NativeApiFailure(Stage::SendInput)),
            ),
            _ => None,
        }
    }
}

impl ControlShortcut {
    /// The native calls made so far, for a simulation that is well formed.
    pub open spec fn calls_made(self) -> nat {
        match self.phase {
            ControlPhase::Waiting(event) => 3 * event.index(),
            ControlPhase::Sending(event, sending) => if sending.phase is Mapping {
                3 * event.index() + 1
            } else {
                3 * event.index() + 2
            },
            ControlPhase::Done => 12,
            ControlPhase::Failed(event) => 3 * event.index() + 3,
        }
    }

    /// The events the system has inserted so far.
    pub open spec fn inserted(self) -> nat {
        match self.phase {
            ControlPhase::Waiting(event) => event.index(),
            ControlPhase::Sending(event, _) => event.index(),
            ControlPhase::Done => 4,
            ControlPhase::Failed(event) => event.index(),
        }
    }

    /// The sleeps taken so far.
    pub open spec fn sleeps(self) -> nat {
        match self.phase {
            ControlPhase::Waiting(event) => event.index(),
            ControlPhase::Sending(event, _) => event.index() + 1,
            ControlPhase::Done => 4,
            ControlPhase::Failed(event) => event.index() + 1,
        }
    }

    /// The simulation is where `replies`, handed to it one by one from the
    /// start, lead: it has made no more calls than there are replies, and an
    /// input that is being sent carries the scan code of the reply before.
    pub open spec fn follows(self, replies: Seq<u32>) -> bool {
        &&& self.wf()
        &&& self.calls_made() <= replies.len()
        &&& match self.phase {
            ControlPhase::Sending(_, sending) => match sending.phase {
                KeyEventPhase::Sending(input) => input == input_for(
                    sending.key_code,
                    sending.key_up,
                    replies[self.calls_made() - 1],
                ),
                _ => true,
            },
            _ => true,
        }
    }

    /// The system as a simulation that has come to this phase on `replies`
    /// leaves it.
    pub open spec fn footprint(self, replies: Seq<u32>) -> Desktop {
        Desktop {
            calls: script(self.key_code, replies).take(self.calls_made() as int),
            live: Map::empty(),
            acquired: Seq::empty(),
            released: Seq::empty(),
            strokes: chord(self.key_code).take(self.inserted() as int),
            slept_millis: self.sleeps() * KEY_DELAY_MILLIS as nat,
            sound: true,
        }
    }
}

/// The calls of a simulation that the system lets run to its end: before
/// each of the four inputs a sleep and the mapping of its virtual key, whose
/// reply gives the input its scan code.
pub open spec fn script(key_code: u16, replies: Seq<u32>) -> Seq<NativeCall> {
    let sleep = NativeCall::Sleep { millis: KEY_DELAY_MILLIS };
    let map_control = NativeCall::MapVirtualKey {
        virtual_key: VK_CONTROL,
        map_type: MAPVK_VK_TO_VSC,
    };
    let map_key = NativeCall::MapVirtualKey { virtual_key: key_code, map_type: MAPVK_VK_TO_VSC };
    seq![
        sleep,
        map_control,
        NativeCall::SendKeyboardInput { input: input_for(VK_CONTROL, false, replies[1]) },
        sleep,
        map_key,
        NativeCall::SendKeyboardInput { input: input_for(key_code, false, replies[4]) },
        sleep,
        map_key,
        NativeCall::SendKeyboardInput { input: input_for(key_code, true, replies[7]) },
        sleep,
        map_control,
        NativeCall::SendKeyboardInput { input: input_for(VK_CONTROL, true, replies[10]) },
    ]
}

/// The strokes of a shortcut: the key goes down and comes up while the
/// control key is held.
pub open spec fn chord(key_code: u16) -> Seq<Stroke> {
    seq![
        Stroke { key: Key::Virtual(VK_CONTROL), pressed: true },
        Stroke { key: Key::Virtual(key_code), pressed: true },
        Stroke { key: Key::Virtual(key_code), pressed: false },
        Stroke { key: Key::Virtual(VK_CONTROL), pressed: false },
    ]
}

/// An input built for a key presses it, or lets it come up if it was built
/// with `key_up`.
pub proof fn lemma_input_stroke(key_code: u16, key_up: bool, mapped: u32)
    ensures
        input_for(key_code, key_up, mapped).stroke() == (Stroke {
            key: Key::Virtual(key_code),
            pressed: !key_up,
        }),
{
    assert(0u32 & 0x0002u32 == 0) by (bit_vector);
    assert(0x0002u32 & 0x0002u32 != 0) by (bit_vector);
}

/// A simulation begins on a system it has not touched, whatever the replies
/// will be.
pub proof fn lemma_start_footprint(key_code: u16, replies: Seq<u32>)
    ensures
        ControlShortcut::start(key_code).follows(replies),
        ControlShortcut::start(key_code).footprint(replies) == Desktop::untouched(),
{
    let start = ControlShortcut::start(key_code);
    assert(start.footprint(replies).calls =~= Seq::<NativeCall>::empty());
    assert(start.footprint(replies).strokes =~= Seq::<Stroke>::empty());
}

/// Making the pending call and resuming with the reply that is next takes
/// the footprint of one phase to the footprint of the next.
pub proof fn lemma_resume_footprint(shortcut: ControlShortcut, replies: Seq<u32>)
    requires
        shortcut.follows(replies),
        shortcut.pending() is Some,
        shortcut.calls_made() < replies.len(),
    ensures
        shortcut.resume(replies[shortcut.calls_made() as int]).follows(replies),
        shortcut.resume(replies[shortcut.calls_made() as int]).calls_made() == shortcut.calls_made()
            + 1,
        shortcut.footprint(replies).apply(
            shortcut.pending().unwrap(),
            replies[shortcut.calls_made() as int],
        ) == shortcut.resume(replies[shortcut.calls_made() as int]).footprint(replies),
{
    let returned = replies[shortcut.calls_made() as int];
    let before = shortcut.footprint(replies);
    let after = before.apply(shortcut.pending().unwrap(), returned);
    let next = shortcut.resume(returned);
    let expected = next.footprint(replies);
    if let ControlPhase::Sending(_, sending) = shortcut.phase {
        if sending.phase is Sending {
            lemma_input_stroke(
                sending.key_code,
                sending.key_up,
                replies[shortcut.calls_made() - 1],
            );
        }
    }
    assert(shortcut.pending().unwrap() == script(
        shortcut.key_code,
        replies,
    )[shortcut.calls_made() as int]);
    assert(after.calls =~= expected.calls);
    assert(after.strokes =~= expected.strokes);
}

/// The calls a simulation has made and the calls it may still make are
/// twelve at most.
pub proof fn lemma_footprint_calls(shortcut: ControlShortcut, replies: Seq<u32>)
    requires
        shortcut.wf(),
    ensures
        shortcut.footprint(replies).calls.len() == shortcut.calls_made(),
        shortcut.calls_made() + shortcut.calls_left() <= 12,
{
    assert(script(shortcut.key_code, replies).len() == 12);
}

/// Begins the simulation of control and `C`.
pub fn simulate_copy() -> (shortcut: ControlShortcut)
    ensures
        shortcut == ControlShortcut::start(VK_C),
{
    simulate_key_with_ctrl(VK_C)
}

/// Begins the simulation of control and `V`.
pub fn simulate_paste() -> (shortcut: ControlShortcut)
    ensures
        shortcut == ControlShortcut::start(VK_V),
{
    simulate_key_with_ctrl(VK_V)
}

/// Begins the simulation of control and the key with `key_code`.
pub fn simulate_key_with_ctrl(key_code: u16) -> (shortcut: ControlShortcut)
    ensures
        shortcut == ControlShortcut::start(key_code),
{
    ControlShortcut { key_code, phase: ControlPhase::Waiting(Event::ControlDown) }
}

} // verus!
