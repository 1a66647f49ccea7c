//! The backend for the platform that gates input synthesis behind
//! accessibility trust. A shortcut is one key-down and one key-up event, both
//! flagged with the command key, created from an event source that lives as
//! long as the simulation.

use crate::error::{SimulationError, Stage};
use crate::native::{
    Desktop, Handle, Key, KeyboardEvent, NativeCall, NativeObject, Stroke,
    EVENT_FLAG_MASK_COMMAND, HID_EVENT_TAP, HID_SYSTEM_STATE,
};
use crate::permission::PermissionFlow;
use vstd::prelude::*;

verus! {

/// Key code of the `c` key.
pub const KEY_C: u16 = 0x08;

/// Key code of the `v` key.
pub const KEY_V: u16 = 0x09;

/// How far the work on one event has come.
#[derive(Clone, Copy, Debug, PartialEq, Eq, Structural)]
pub enum Progress {
    /// The event is being created.
    Creating,
    /// The event exists and is being flagged.
    Flagging,
    /// The event is flagged and is being posted.
    Posting,
}

/// Where a simulation stands. A simulation that has not begun is idle and has
/// no value yet.
#[derive(Clone, Copy, Debug, PartialEq, Eq, Structural)]
pub enum Phase {
    /// The event source is being created.
    AcquiringSource,
    /// The key-down event is under way.
    KeyDown(Progress),
    /// The key-up event is under way.
    KeyUp(Progress),
    /// `next` and every handle acquired before it are being released; then
    /// the simulation ends, with `failure` if there is one.
    Releasing { next: Handle, failure: Option<Stage> },
    /// Both events were posted and nothing is held.
    Done,
    /// The simulation failed at the given stage and nothing is held.
    Failed(Stage),
}

/// One simulation of the command key together with another key.
#[derive(Clone, Copy, Debug, PartialEq, Eq, Structural)]
pub struct CommandShortcut {
    pub key_code: u16,
    pub phase: Phase,
}

impl Phase {
    /// The phases a simulation can be in: what is released was acquired, and
    /// a failure is one that occurs here.
    pub open spec fn wf(self) -> bool {
        match self {
            Phase::Releasing { next, failure: None } => true,
            Phase::Releasing { next, failure: Some(stage) } => {
                ||| stage == Stage::KeyDown && next == Handle::EventSource
                ||| stage == Stage::KeyUp && next != Handle::KeyUpEvent
            },
            Phase::Failed(stage) => stage != Stage::SendInput,
            _ => true,
        }
    }

    /// The phase that follows once the pending call has returned.
    pub open spec fn following(self, returned: u32) -> Phase {
        match self {
            Phase::AcquiringSource => {
                if returned == 0 {
                    Phase::Failed(Stage::EventSource)
                } else {
                    Phase::KeyDown(Progress::Creating)
                }
            },
            Phase::KeyDown(Progress::Creating) => {
                if returned == 0 {
                    Phase::Releasing { next: Handle::EventSource, failure: Some(Stage::KeyDown) }
                } else {
                    Phase::KeyDown(Progress::Flagging)
                }
            },
            Phase::KeyDown(Progress::Flagging) => Phase::KeyDown(Progress::Posting),
            Phase::KeyDown(Progress::Posting) => Phase::KeyUp(Progress::Creating),
            Phase::KeyUp(Progress::Creating) => {
                if returned == 0 {
                    Phase::Releasing { next: Handle::KeyDownEvent, failure: Some(Stage::KeyUp) }
                } else {
                    Phase::KeyUp(Progress::Flagging)
                }
            },
            Phase::KeyUp(Progress::Flagging) => Phase::KeyUp(Progress::Posting),
            Phase::KeyUp(Progress::Posting) => {
                Phase::Releasing { next: Handle::KeyUpEvent, failure: None }
            },
            Phase::Releasing { next, failure } => match next.predecessor() {
                Some(before) => Phase::Releasing { next: before, failure },
                None => match failure {
                    None => Phase::Done,
                    Some(stage) => Phase::Failed(stage),
                },
            },
            Phase::Done => Phase::Done,
            Phase::Failed(stage) => Phase::Failed(stage),
        }
    }

    /// An upper bound on the native calls still to come.
    pub open spec fn calls_left(self) -> nat {
        match self {
            Phase::AcquiringSource => 10,
            Phase::KeyDown(Progress::Creating) => 9,
            Phase::KeyDown(Progress::Flagging) => 8,
            Phase::KeyDown(Progress::Posting) => 7,
            Phase::KeyUp(Progress::Creating) => 6,
            Phase::KeyUp(Progress::Flagging) => 5,
            Phase::KeyUp(Progress::Posting) => 4,
            Phase::Releasing { next: Handle::KeyUpEvent, .. } => 3,
            Phase::Releasing { next: Handle::KeyDownEvent, .. } => 2,
            Phase::Releasing { next: Handle::EventSource, .. } => 1,
            Phase::Done | Phase::Failed(_) => 0,
        }
    }
}

impl CommandShortcut {
    /// A simulation that has just left the idle state.
    pub open spec fn start(key_code: u16) -> CommandShortcut {
        CommandShortcut { key_code, phase: Phase::AcquiringSource }
    }

    /// The native call the simulation waits for, if it has not ended.
    pub open spec fn spec_pending(&self) -> Option<NativeCall> {
        match self.phase {
            Phase::AcquiringSource => {
                Some(NativeCall::CreateEventSource { state_id: HID_SYSTEM_STATE })
            },
            Phase::KeyDown(progress) => {
                Some(event_call(Handle::KeyDownEvent, self.key_code, true, progress))
            },
            Phase::KeyUp(progress) => {
                Some(event_call(Handle::KeyUpEvent, self.key_code, false, progress))
            },
            Phase::Releasing { next, .. } => Some(NativeCall::Release { handle: next }),
            Phase::Done | Phase::Failed(_) => None,
        }
    }

    /// The simulation after the pending call has returned. One that has
    /// ended stays as it is.
    pub open spec fn spec_resume(self, returned: u32) -> CommandShortcut {
        CommandShortcut { phase: self.phase.following(returned), ..self }
    }

    /// How the simulation ended, if it has.
    pub open spec fn spec_verdict(&self) -> Option<Result<(), SimulationError>> {
        match self.phase {
            Phase::Done => Some(Ok(())),
            Phase::Failed(stage) => Some(Err(SimulationError::NativeApiFailure(stage))),
            _ => None,
        }
    }

    #[verifier::when_used_as_spec(spec_pending)]
    pub fn pending(&self) -> (call: Option<NativeCall>)
        ensures
            call == self.spec_pending(),
            call is None <==> self.spec_verdict() is Some,
            call is None <==> self.phase.calls_left() == 0,
    {
        match self.phase {
            Phase::AcquiringSource => {
                Some(NativeCall::CreateEventSource { state_id: HID_SYSTEM_STATE })
            },
            Phase::KeyDown(progress) => {
                Some(event_step(Handle::KeyDownEvent, self.key_code, true, progress))
            },
            Phase::KeyUp(progress) => {
                Some(event_step(Handle::KeyUpEvent, self.key_code, false, progress))
            },
            Phase::Releasing { next, .. } => Some(NativeCall::Release { handle: next }),
            Phase::Done | Phase::Failed(_) => None,
        }
    }

    #[verifier::when_used_as_spec(spec_resume)]
    pub fn resume(self, returned: u32) -> (next: CommandShortcut)
        ensures
            next == self.spec_resume(returned),
            self.phase.wf() ==> next.phase.wf(),
            self.spec_pending() is Some ==> next.phase.calls_left() < self.phase.calls_left(),
            self.spec_verdict() is Some ==> next == self,
    {
        let phase = match self.phase {
            Phase::AcquiringSource => {
                if returned == 0 {
                    Phase::Failed(Stage::EventSource)
                } else {
                    Phase::KeyDown(Progress::Creating)
                }
            },
            Phase::KeyDown(Progress::Creating) => {
                if returned == 0 {
                    Phase::Releasing { next: Handle::EventSource, failure: Some(Stage::KeyDown) }
                } else {
                    Phase::KeyDown(Progress::Flagging)
                }
            },
            Phase::KeyDown(Progress::Flagging) => Phase::KeyDown(Progress::Posting),
            Phase::KeyDown(Progress::Posting) => Phase::KeyUp(Progress::Creating),
            Phase::KeyUp(Progress::Creating) => {
                if returned == 0 {
                    Phase::Releasing { next: Handle::KeyDownEvent, failure: Some(Stage::KeyUp) }
                } else {
                    Phase::KeyUp(Progress::Flagging)
                }
            },
            Phase::KeyUp(Progress::Flagging) => Phase::KeyUp(Progress::Posting),
            Phase::KeyUp(Progress::Posting) => {
                Phase::Releasing { next: Handle::KeyUpEvent, failure: None }
            },
            Phase::Releasing { next, failure } => match next.acquired_before() {
                Some(before) => Phase::Releasing { next: before, failure },
                None => match failure {
                    None => Phase::Done,
                    Some(stage) => Phase::Failed(stage),
                },
            },
            Phase::Done => Phase::Done,
            Phase::Failed(stage) => Phase::Failed(stage),
        };
        CommandShortcut { key_code: self.key_code, phase }
    }

    #[verifier::when_used_as_spec(spec_verdict)]
    pub fn verdict(&self) -> (verdict: Option<Result<(), SimulationError>>)
        ensures
            verdict == self.spec_verdict(),
    {
        match self.phase {
            Phase::Done => Some(Ok(())),
            Phase::Failed(stage) => Some(Err(SimulationError::NativeApiFailure(stage))),
            _ => None,
        }
    }
}

impl CommandShortcut {
    /// The system as a simulation that has come to this phase leaves it, for
    /// the phases a simulation can be in.
    pub open spec fn footprint(self) -> Desktop {
        let k = self.key_code;
        let s = Handle::EventSource;
        let d = Handle::KeyDownEvent;
        let u = Handle::KeyUpEvent;
        let source = NativeObject::EventSource { state_id: HID_SYSTEM_STATE };
        let c0 = NativeCall::CreateEventSource { state_id: HID_SYSTEM_STATE };
        let c1 = event_call(d, k, true, Progress::Creating);
        let c2 = event_call(d, k, true, Progress::Flagging);
        let c3 = event_call(d, k, true, Progress::Posting);
        let c4 = event_call(u, k, false, Progress::Creating);
        let c5 = event_call(u, k, false, Progress::Flagging);
        let c6 = event_call(u, k, false, Progress::Posting);
        let ru = NativeCall::Release { handle: u };
        let rd = NativeCall::Release { handle: d };
        let rs = NativeCall::Release { handle: s };
        let down = chord(k, true);
        let both = chord(k, true) + chord(k, false);
        match self.phase {
            Phase::AcquiringSource => Desktop::untouched(),
            Phase::KeyDown(Progress::Creating) => left(
                seq![c0],
                map![s => source],
                seq![s],
                seq![],
                seq![],
            ),
            Phase::KeyDown(Progress::Flagging) => left(
                seq![c0, c1],
                map![s => source, d => event(k, true, 0)],
                seq![s, d],
                seq![],
                seq![],
            ),
            Phase::KeyDown(Progress::Posting) => left(
                seq![c0, c1, c2],
                map![s => source, d => event(k, true, EVENT_FLAG_MASK_COMMAND)],
                seq![s, d],
                seq![],
                seq![],
            ),
            Phase::KeyUp(Progress::Creating) => left(
                seq![c0, c1, c2, c3],
                map![s => source, d => event(k, true, EVENT_FLAG_MASK_COMMAND)],
                seq![s, d],
                seq![],
                down,
            ),
            Phase::KeyUp(Progress::Flagging) => left(
                seq![c0, c1, c2, c3, c4],
                map![
                    s => source,
                    d => event(k, true, EVENT_FLAG_MASK_COMMAND),
                    u => event(k, false, 0),
                ],
                seq![s, d, u],
                seq![],
                down,
            ),
            Phase::KeyUp(Progress::Posting) => left(
                seq![c0, c1, c2, c3, c4, c5],
                map![
                    s => source,
                    d => event(k, true, EVENT_FLAG_MASK_COMMAND),
                    u => event(k, false, EVENT_FLAG_MASK_COMMAND),
                ],
                seq![s, d, u],
                seq![],
                down,
            ),
            Phase::Releasing { next: Handle::KeyUpEvent, failure: None } => left(
                seq![c0, c1, c2, c3, c4, c5, c6],
                map![
                    s => source,
                    d => event(k, true, EVENT_FLAG_MASK_COMMAND),
                    u => event(k, false, EVENT_FLAG_MASK_COMMAND),
                ],
                seq![s, d, u],
                seq![],
                both,
            ),
            Phase::Releasing { next: Handle::KeyDownEvent, failure: None } => left(
                seq![c0, c1, c2, c3, c4, c5, c6, ru],
                map![s => source, d => event(k, true, EVENT_FLAG_MASK_COMMAND)],
                seq![s, d, u],
                seq![u],
                both,
            ),
            Phase::Releasing { next: Handle::EventSource, failure: None } => left(
                seq![c0, c1, c2, c3, c4, c5, c6, ru, rd],
                map![s => source],
                seq![s, d, u],
                seq![u, d],
                both,
            ),
            Phase::Done => left(
                seq![c0, c1, c2, c3, c4, c5, c6, ru, rd, rs],
                map![],
                seq![s, d, u],
                seq![u, d, s],
                both,
            ),
            Phase::Failed(Stage::EventSource) => left(seq![c0], map![], seq![], seq![], seq![]),
            Phase::Releasing { next: Handle::EventSource, failure: Some(Stage::KeyDown) } => left(
                seq![c0, c1],
                map![s => source],
                seq![s],
                seq![],
                seq![],
            ),
            Phase::Failed(Stage::KeyDown) => left(
                seq![c0, c1, rs],
                map![],
                seq![s],
                seq![s],
                seq![],
            ),
            Phase::Releasing { next: Handle::KeyDownEvent, failure: Some(Stage::KeyUp) } => left(
                seq![c0, c1, c2, c3, c4],
                map![s => source, d => event(k, true, EVENT_FLAG_MASK_COMMAND)],
                seq![s, d],
                seq![],
                down,
            ),
            Phase::Releasing { next: Handle::EventSource, failure: Some(Stage::KeyUp) } => left(
                seq![c0, c1, c2, c3, c4, rd],
                map![s => source],
                seq![s, d],
                seq![d],
                down,
            ),
            Phase::Failed(Stage::KeyUp) => left(
                seq![c0, c1, c2, c3, c4, rd, rs],
                map![],
                seq![s, d],
                seq![d, s],
                down,
            ),
            _ => Desktop::untouched(),
        }
    }
}

/// The strokes of the key with `key_code` going down or coming up while the
/// command key is held.
pub open spec fn chord(key_code: u16, pressed: bool) -> Seq<Stroke> {
    let key = Stroke { key: Key::Code(key_code), pressed };
    let command = Stroke { key: Key::Modifier(EVENT_FLAG_MASK_COMMAND), pressed };
    if pressed {
        seq![command, key]
    } else {
        seq![key, command]
    }
}

/// A keyboard event that is alive.
pub open spec fn event(key_code: u16, key_down: bool, flags: u64) -> NativeObject {
    NativeObject::KeyboardEvent(KeyboardEvent { key_code, key_down, flags })
}

/// A system on which no call went wrong and nobody slept.
pub open spec fn left(
    calls: Seq<NativeCall>,
    live: Map<Handle, NativeObject>,
    acquired: Seq<Handle>,
    released: Seq<Handle>,
    strokes: Seq<Stroke>,
) -> Desktop {
    Desktop { calls, live, acquired, released, strokes, slept_millis: 0, sound: true }
}

/// A simulation begins on a system it has not touched.
pub proof fn lemma_start_footprint(key_code: u16)
    ensures
        CommandShortcut::start(key_code).phase.wf(),
        CommandShortcut::start(key_code).footprint() == Desktop::untouched(),
{
}

/// Making the pending call and resuming with what it returned takes the
/// footprint of one phase to the footprint of the next, whatever came back.
pub proof fn lemma_resume_footprint(shortcut: CommandShortcut, returned: u32)
    requires
        shortcut.phase.wf(),
        shortcut.pending() is Some,
    ensures
        shortcut.resume(returned).phase.wf(),
        shortcut.footprint().apply(shortcut.pending().unwrap(), returned) == shortcut.resume(
            returned,
        ).footprint(),
{
    let before = shortcut.footprint();
    let after = before.apply(shortcut.pending().unwrap(), returned);
    let expected = shortcut.resume(returned).footprint();
    assert(after.calls =~= expected.calls);
    assert(after.live =~= expected.live);
    assert(after.acquired =~= expected.acquired);
    assert(after.released =~= expected.released);
    assert(after.strokes =~= expected.strokes);
}

/// The calls a simulation has made and the calls it may still make are ten
/// at most.
pub proof fn lemma_footprint_calls(shortcut: CommandShortcut)
    requires
        shortcut.phase.wf(),
    ensures
        shortcut.footprint().calls.len() + shortcut.phase.calls_left() <= 10,
{
}

/// The call that carries the work on one event a step further.
pub open spec fn event_call(event: Handle, key_code: u16, key_down: bool, progress: Progress)
    -> NativeCall {
    match progress {
        Progress::Creating => NativeCall::CreateKeyboardEvent { event, key_code, key_down },
        Progress::Flagging => NativeCall::SetEventFlags { event, flags: EVENT_FLAG_MASK_COMMAND },
        Progress::Posting => NativeCall::PostEvent { event, tap: HID_EVENT_TAP },
    }
}

fn event_step(event: Handle, key_code: u16, key_down: bool, progress: Progress) -> (call:
    NativeCall)
    ensures
        call == event_call(event, key_code, key_down, progress),
{
    match progress {
        Progress::Creating => NativeCall::CreateKeyboardEvent { event, key_code, key_down },
        Progress::Flagging => NativeCall::SetEventFlags { event, flags: EVENT_FLAG_MASK_COMMAND },
        Progress::Posting => NativeCall::PostEvent { event, tap: HID_EVENT_TAP },
    }
}

/// Begins the check whether the process is trusted: the system is asked, and
/// its answer is the answer.
pub fn check_permissions() -> (flow: PermissionFlow)
    ensures
        flow == PermissionFlow::Asking,
{
    PermissionFlow::Asking
}

/// Begins the request for trust: the system is told to prompt the user.
/// The answer is `true` once the prompt was asked for, whatever the system
/// says of the trust it has granted so far.
pub fn request_permissions() -> (flow: PermissionFlow)
    ensures
        flow == PermissionFlow::Prompting,
{
    PermissionFlow::Prompting
}

/// Begins the simulation of command and `c`.
pub fn simulate_copy() -> (shortcut: CommandShortcut)
    ensures
        shortcut == CommandShortcut::start(KEY_C),
{
    simulate_key_with_command(KEY_C)
}

/// Begins the simulation of command and `v`.
pub fn simulate_paste() -> (shortcut: CommandShortcut)
    ensures
        shortcut == CommandShortcut::start(KEY_V),
{
    simulate_key_with_command(KEY_V)
}

/// Begins the simulation of command and the key with `key_code`.
pub fn simulate_key_with_command(key_code: u16) -> (shortcut: CommandShortcut)
    ensures
        shortcut == CommandShortcut::start(key_code),
{
    CommandShortcut { key_code, phase: Phase::AcquiringSource }
}

} // verus!
