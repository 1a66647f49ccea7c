//! One shortcut simulation on whichever backend the platform has.

use crate::error::SimulationError;
use crate::linux;
use crate::macos::{CommandShortcut, KEY_C, KEY_V};
use crate::native::{Desktop, NativeCall};
use crate::platform::Platform;
use crate::windows::{ControlShortcut, VK_C, VK_V};
use vstd::prelude::*;

verus! {

/// The shortcuts that can be simulated.
#[derive(Clone, Copy, Debug, PartialEq, Eq, Structural)]
pub enum ShortcutKey {
    Copy,
    Paste,
}

impl ShortcutKey {
    /// The key code of the shortcut's key where the modifier is the command
    /// key.
    pub open spec fn key_code(self) -> u16 {
        match self {
            ShortcutKey::Copy => KEY_C,
            ShortcutKey::Paste => KEY_V,
        }
    }

    /// The virtual-key code of the shortcut's key where the modifier is the
    /// control key.
    pub open spec fn virtual_key(self) -> u16 {
        match self {
            ShortcutKey::Copy => VK_C,
            ShortcutKey::Paste => VK_V,
        }
    }
}

/// A simulation on the backend of one platform.
#[derive(Clone, Copy, Debug, PartialEq, Eq, Structural)]
pub enum Simulation {
    /// The platform has no backend: the simulation has ended before it
    /// began.
    Unsupported { platform: Platform, key: ShortcutKey },
    /// A simulation with the command key.
    Command(CommandShortcut),
    /// A simulation with the control key.
    Control(ControlShortcut),
}

impl Simulation {
    /// The simulation of `key` on `platform` before any native call.
    pub open spec fn begin(platform: Platform, key: ShortcutKey) -> Simulation {
        match platform {
            Platform::MacOs => Simulation::Command(CommandShortcut::start(key.key_code())),
            Platform::Windows => Simulation::Control(ControlShortcut::start(key.virtual_key())),
            _ => Simulation::Unsupported { platform, key },
        }
    }

    /// The backend's own invariant holds.
    pub open spec fn wf(self) -> bool {
        match self {
            Simulation::Unsupported { .. } => true,
            Simulation::Command(shortcut) => shortcut.phase.wf(),
            Simulation::Control(shortcut) => shortcut.wf(),
        }
    }

    /// The native call the simulation waits for, if it has not ended.
    pub open spec fn spec_pending(&self) -> Option<NativeCall> {
        match *self {
            Simulation::Unsupported { .. } => None,
            Simulation::Command(shortcut) => shortcut.spec_pending(),
            Simulation::Control(shortcut) => shortcut.spec_pending(),
        }
    }

    /// The simulation after the pending call has returned.
    pub open spec fn spec_resume(self, returned: u32) -> Simulation {
        match self {
            Simulation::Unsupported { platform, key } => Simulation::Unsupported { platform, key },
            Simulation::Command(shortcut) => Simulation::Command(shortcut.spec_resume(returned)),
            Simulation::Control(shortcut) => Simulation::Control(shortcut.spec_resume(returned)),
        }
    }

    /// How the simulation ended, if it has.
    pub open spec fn spec_verdict(&self) -> Option<Result<(), SimulationError>> {
        match *self {
            Simulation::Unsupported { platform, .. } => Some(
                Err(SimulationError::PlatformUnsupported(platform)),
            ),
            Simulation::Command(shortcut) => shortcut.spec_verdict(),
            Simulation::Control(shortcut) => shortcut.spec_verdict(),
        }
    }

    /// An upper bound on the native calls still to come.
    pub open spec fn calls_left(self) -> nat {
        match self {
            Simulation::Unsupported { .. } => 0,
            Simulation::Command(shortcut) => shortcut.phase.calls_left(),
            Simulation::Control(shortcut) => shortcut.calls_left(),
        }
    }

    #[verifier::when_used_as_spec(spec_pending)]
    pub fn pending(&self) -> (call: Option<NativeCall>)
        ensures
            call == self.spec_pending(),
            self.wf() ==> (call is None <==> self.spec_verdict() is Some),
            self.wf() ==> (call is None <==> self.calls_left() == 0),
    {
        match self {
            Simulation::Unsupported { .. } => None,
            Simulation::Command(shortcut) => shortcut.pending(),
            Simulation::Control(shortcut) => shortcut.pending(),
        }
    }

    #[verifier::when_used_as_spec(spec_resume)]
    pub fn resume(self, returned: u32) -> (next: Simulation)
        ensures
            next == self.spec_resume(returned),
            self.wf() ==> next.wf(),
            self.wf() && self.spec_pending() is Some ==> next.calls_left() < self.calls_left(),
            self.spec_verdict() is Some ==> next == self,
    {
        match self {
            Simulation::Unsupported { platform, key } => Simulation::Unsupported { platform, key },
            Simulation::Command(shortcut) => Simulation::Command(shortcut.resume(returned)),
            Simulation::Control(shortcut) => Simulation::Control(shortcut.resume(returned)),
        }
    }

    #[verifier::when_used_as_spec(spec_verdict)]
    pub fn verdict(&self) -> (verdict: Option<Result<(), SimulationError>>)
        ensures
            verdict == self.spec_verdict(),
    {
        match self {
            Simulation::Unsupported { platform, .. } => Some(
                Err(SimulationError::PlatformUnsupported(*platform)),
            ),
            Simulation::Command(shortcut) => shortcut.verdict(),
            Simulation::Control(shortcut) => shortcut.verdict(),
        }
    }

    /// The result that crosses the command boundary, once the simulation has
    /// ended: nothing, or the message of the error.
    pub fn outcome(&self) -> (outcome: Option<Result<(), String>>)
        ensures
            match self.spec_verdict() {
                None => outcome is None,
                Some(Ok(_)) => outcome == Some(Ok::<(), String>(())),
                Some(Err(error)) => outcome matches Some(Err(message)) && message@ == error.text(),
            },
    {
        match self {
            Simulation::Unsupported { platform: Platform::Linux, key: ShortcutKey::Copy } => Some(
                linux::simulate_copy(),
            ),
            Simulation::Unsupported { platform: Platform::Linux, key: ShortcutKey::Paste } => Some(
                linux::simulate_paste(),
            ),
            _ => match self.verdict() {
                None => None,
                Some(Ok(_)) => Some(Ok(())),
                Some(Err(error)) => Some(Err(error.message())),
            },
        }
    }

    /// The simulation and the system once the host has gone `rounds` times
    /// round the loop: make the pending call, take the next of `replies` as
    /// what it returned, resume. A round changes nothing once the simulation
    /// has ended or the replies have run out.
    pub open spec fn run(self, replies: Seq<u32>, rounds: nat) -> (Simulation, Desktop)
        decreases rounds,
    {
        if rounds == 0 {
            (self, Desktop::untouched())
        } else {
            let (simulation, desktop) = self.run(replies, (rounds - 1) as nat);
            match simulation.spec_pending() {
                Some(call) if rounds <= replies.len() => (
                    simulation.spec_resume(replies[rounds - 1]),
                    desktop.apply(call, replies[rounds - 1]),
                ),
                _ => (simulation, desktop),
            }
        }
    }

    /// The system as a simulation that has come to this point on `replies`
    /// leaves it.
    pub open spec fn footprint(self, replies: Seq<u32>) -> Desktop {
        match self {
            Simulation::Unsupported { .. } => Desktop::untouched(),
            Simulation::Command(shortcut) => shortcut.footprint(),
            Simulation::Control(shortcut) => shortcut.footprint(replies),
        }
    }
}

} // verus!
