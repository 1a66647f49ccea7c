use ergonomic::error::{SimulationError, Stage};
use ergonomic::macos::{
    simulate_copy, simulate_key_with_command, simulate_paste, CommandShortcut, Phase, Progress,
    KEY_C, KEY_V,
};
use ergonomic::native::{
    Handle, NativeCall, EVENT_FLAG_MASK_COMMAND, HID_EVENT_TAP, HID_SYSTEM_STATE,
};

/// A stand-in for the system: it holds what was created, notes what was
/// posted and released, and fails the creations it is told to fail.
struct Host {
    fail_source: bool,
    fail_key_down: bool,
    fail_key_up: bool,
    calls: Vec<NativeCall>,
    live: Vec<(Handle, u16, bool, u64)>,
    acquired: Vec<Handle>,
    released: Vec<Handle>,
    posted: Vec<(u16, bool, u64)>,
    misuse: bool,
}

impl Host {
    fn new() -> Host {
        Host {
            fail_source: false,
            fail_key_down: false,
            fail_key_up: false,
            calls: Vec::new(),
            live: Vec::new(),
            acquired: Vec::new(),
            released: Vec::new(),
            posted: Vec::new(),
            misuse: false,
        }
    }

    fn holds(&self, handle: Handle) -> bool {
        self.live.iter().any(|entry| entry.0 == handle)
    }

    fn acquire(&mut self, handle: Handle, key_code: u16, key_down: bool) -> u32 {
        if self.holds(handle) {
            self.misuse = true;
        }
        self.live.push((handle, key_code, key_down, 0));
        self.acquired.push(handle);
        1
    }

    fn perform(&mut self, call: NativeCall) -> u32 {
        self.calls.push(call);
        match call {
            NativeCall::CreateEventSource { state_id } => {
                assert_eq!(state_id, HID_SYSTEM_STATE);
                if self.fail_source {
                    0
                } else {
                    self.acquire(Handle::EventSource, 0, false)
                }
            }
            NativeCall::CreateKeyboardEvent { event, key_code, key_down } => {
                if !self.holds(Handle::EventSource) || event == Handle::EventSource {
                    self.misuse = true;
                }
                let fail = if key_down { self.fail_key_down } else { self.fail_key_up };
                if fail {
                    0
                } else {
                    self.acquire(event, key_code, key_down)
                }
            }
            NativeCall::SetEventFlags { event, flags } => {
                match self.live.iter_mut().find(|entry| entry.0 == event) {
                    Some(entry) => entry.3 = flags,
                    None => self.misuse = true,
                }
                0
            }
            NativeCall::PostEvent { event, tap } => {
                assert_eq!(tap, HID_EVENT_TAP);
                match self.live.iter().find(|entry| entry.0 == event) {
                    Some(entry) => self.posted.push((entry.1, entry.2, entry.3)),
                    None => self.misuse = true,
                }
                0
            }
            NativeCall::Release { handle } => {
                match self.live.iter().position(|entry| entry.0 == handle) {
                    Some(at) => {
                        self.live.remove(at);
                        self.released.push(handle);
                    }
                    None => self.misuse = true,
                }
                0
            }
            other => panic!("a call of another backend: {:?}", other),
        }
    }

    fn drive(&mut self, mut shortcut: CommandShortcut) -> Result<(), SimulationError> {
        for _ in 0..20 {
            match shortcut.pending() {
                Some(call) => shortcut = shortcut.resume(self.perform(call)),
                None => return shortcut.verdict().unwrap(),
            }
        }
        panic!("the simulation did not end");
    }
}

fn reversed(handles: &[Handle]) -> Vec<Handle> {
    handles.iter().rev().copied().collect()
}

#[test]
fn copy_starts_with_the_c_key() {
    assert_eq!(KEY_C, 0x08);
    assert_eq!(simulate_copy(), CommandShortcut { key_code: 0x08, phase: Phase::AcquiringSource });
    assert_eq!(simulate_copy(), simulate_key_with_command(KEY_C));
}

#[test]
fn paste_starts_with_the_v_key() {
    assert_eq!(KEY_V, 0x09);
    assert_eq!(simulate_paste(), CommandShortcut { key_code: 0x09, phase: Phase::AcquiringSource });
    assert_eq!(simulate_paste(), simulate_key_with_command(KEY_V));
}

#[test]
fn successful_copy_makes_ten_calls_in_order() {
    let mut host = Host::new();
    assert_eq!(host.drive(simulate_copy()), Ok(()));
    let down = Handle::KeyDownEvent;
    let up = Handle::KeyUpEvent;
    assert_eq!(
        host.calls,
        vec![
            NativeCall::CreateEventSource { state_id: 1 },
            NativeCall::CreateKeyboardEvent { event: down, key_code: 8, key_down: true },
            NativeCall::SetEventFlags { event: down, flags: 0x0010_0000 },
            NativeCall::PostEvent { event: down, tap: 0 },
            NativeCall::CreateKeyboardEvent { event: up, key_code: 8, key_down: false },
            NativeCall::SetEventFlags { event: up, flags: 0x0010_0000 },
            NativeCall::PostEvent { event: up, tap: 0 },
            NativeCall::Release { handle: up },
            NativeCall::Release { handle: down },
            NativeCall::Release { handle: Handle::EventSource },
        ]
    );
}

#[test]
fn successful_paste_posts_down_then_up_with_command() {
    let mut host = Host::new();
    assert_eq!(host.drive(simulate_paste()), Ok(()));
    assert_eq!(
        host.posted,
        vec![(0x09, true, EVENT_FLAG_MASK_COMMAND), (0x09, false, EVENT_FLAG_MASK_COMMAND)]
    );
    assert!(!host.misuse);
}

#[test]
fn successful_run_releases_what_it_acquired_in_reverse() {
    let mut host = Host::new();
    assert_eq!(host.drive(simulate_copy()), Ok(()));
    assert_eq!(
        host.acquired,
        vec![Handle::EventSource, Handle::KeyDownEvent, Handle::KeyUpEvent]
    );
    assert_eq!(host.released, reversed(&host.acquired));
    assert!(host.live.is_empty());
    assert!(!host.misuse);
}

#[test]
fn failed_event_source_releases_nothing() {
    let mut host = Host::new();
    host.fail_source = true;
    assert_eq!(
        host.drive(simulate_copy()),
        Err(SimulationError::NativeApiFailure(Stage::EventSource))
    );
    assert_eq!(host.calls, vec![NativeCall::CreateEventSource { state_id: 1 }]);
    assert!(host.acquired.is_empty());
    assert!(host.released.is_empty());
    assert!(host.posted.is_empty());
    assert!(!host.misuse);
}

#[test]
fn failed_key_down_releases_the_source() {
    let mut host = Host::new();
    host.fail_key_down = true;
    assert_eq!(
        host.drive(simulate_copy()),
        Err(SimulationError::NativeApiFailure(Stage::KeyDown))
    );
    assert_eq!(host.calls.len(), 3);
    assert_eq!(host.released, vec![Handle::EventSource]);
    assert!(host.live.is_empty());
    assert!(host.posted.is_empty());
    assert!(!host.misuse);
}

#[test]
fn failed_key_up_releases_key_down_and_source() {
    let mut host = Host::new();
    host.fail_key_up = true;
    assert_eq!(
        host.drive(simulate_copy()),
        Err(SimulationError::NativeApiFailure(Stage::KeyUp))
    );
    assert_eq!(host.calls.len(), 7);
    assert_eq!(host.acquired, vec![Handle::EventSource, Handle::KeyDownEvent]);
    assert_eq!(host.released, vec![Handle::KeyDownEvent, Handle::EventSource]);
    assert!(host.live.is_empty());
    // the key went down and nothing takes that back
    assert_eq!(host.posted, vec![(0x08, true, EVENT_FLAG_MASK_COMMAND)]);
    assert!(!host.misuse);
}

#[test]
fn every_fault_leaves_the_host_balanced() {
    for faults in 0..8u32 {
        let mut host = Host::new();
        host.fail_source = faults & 1 != 0;
        host.fail_key_down = faults & 2 != 0;
        host.fail_key_up = faults & 4 != 0;
        let verdict = host.drive(simulate_paste());
        assert_eq!(verdict.is_ok(), faults == 0);
        assert_eq!(host.released, reversed(&host.acquired));
        assert!(host.live.is_empty());
        assert!(!host.misuse);
        assert!(host.calls.len() <= 10);
    }
}

#[test]
fn two_simulations_in_a_row_do_not_share_state() {
    let mut host = Host::new();
    assert_eq!(host.drive(simulate_copy()), Ok(()));
    let first = host.calls.clone();
    assert_eq!(host.released.len(), 3);
    assert_eq!(host.drive(simulate_copy()), Ok(()));
    assert_eq!(host.calls.len(), 2 * first.len());
    assert_eq!(&host.calls[first.len()..], &first[..]);
    assert_eq!(host.acquired.len(), 6);
    assert_eq!(host.released.len(), 6);
    assert!(host.live.is_empty());
    assert!(!host.misuse);
}

#[test]
fn a_failure_does_not_affect_the_next_simulation() {
    let mut host = Host::new();
    host.fail_key_up = true;
    assert!(host.drive(simulate_copy()).is_err());
    host.fail_key_up = false;
    host.posted.clear();
    assert_eq!(host.drive(simulate_copy()), Ok(()));
    assert_eq!(host.posted.len(), 2);
    assert!(host.live.is_empty());
}

#[test]
fn phases_follow_one_another() {
    let mut shortcut = simulate_key_with_command(0x2a);
    let mut phases = vec![shortcut.phase];
    while shortcut.pending().is_some() {
        shortcut = shortcut.resume(1);
        phases.push(shortcut.phase);
    }
    assert_eq!(
        phases,
        vec![
            Phase::AcquiringSource,
            Phase::KeyDown(Progress::Creating),
            Phase::KeyDown(Progress::Flagging),
            Phase::KeyDown(Progress::Posting),
            Phase::KeyUp(Progress::Creating),
            Phase::KeyUp(Progress::Flagging),
            Phase::KeyUp(Progress::Posting),
            Phase::Releasing { next: Handle::KeyUpEvent, failure: None },
            Phase::Releasing { next: Handle::KeyDownEvent, failure: None },
            Phase::Releasing { next: Handle::EventSource, failure: None },
            Phase::Done,
        ]
    );
    assert_eq!(shortcut.key_code, 0x2a);
}

#[test]
fn failure_passes_through_releasing() {
    let shortcut = simulate_copy().resume(1).resume(0);
    assert_eq!(
        shortcut.phase,
        Phase::Releasing { next: Handle::EventSource, failure: Some(Stage::KeyDown) }
    );
    assert_eq!(shortcut.verdict(), None);
    assert_eq!(shortcut.resume(0).phase, Phase::Failed(Stage::KeyDown));
    // a failed source has nothing to release
    assert_eq!(simulate_copy().resume(0).phase, Phase::Failed(Stage::EventSource));
}

#[test]
fn ended_simulation_stays_ended() {
    let done = CommandShortcut { key_code: 8, phase: Phase::Done };
    assert_eq!(done.pending(), None);
    assert_eq!(done.resume(0), done);
    assert_eq!(done.resume(7), done);
    assert_eq!(done.verdict(), Some(Ok(())));
    let failed = CommandShortcut { key_code: 8, phase: Phase::Failed(Stage::KeyUp) };
    assert_eq!(failed.resume(1), failed);
    assert_eq!(failed.verdict(), Some(Err(SimulationError::NativeApiFailure(Stage::KeyUp))));
}

#[test]
fn what_calls_without_a_result_return_is_ignored() {
    let mut shortcut = simulate_copy().resume(1).resume(1);
    assert_eq!(shortcut.phase, Phase::KeyDown(Progress::Flagging));
    shortcut = shortcut.resume(0);
    assert_eq!(shortcut.phase, Phase::KeyDown(Progress::Posting));
    shortcut = shortcut.resume(0xffff_ffff);
    assert_eq!(shortcut.phase, Phase::KeyUp(Progress::Creating));
}

#[test]
fn handles_know_what_was_acquired_before_them() {
    assert_eq!(Handle::KeyUpEvent.acquired_before(), Some(Handle::KeyDownEvent));
    assert_eq!(Handle::KeyDownEvent.acquired_before(), Some(Handle::EventSource));
    assert_eq!(Handle::EventSource.acquired_before(), None);
}
