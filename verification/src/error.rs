//! The ways a shortcut simulation can fail.

use crate::platform::Platform;
use vstd::prelude::*;

verus! {

/// The step of a simulation at which a native facility let it down.
#[derive(Clone, Copy, Debug, PartialEq, Eq, Structural)]
pub enum Stage {
    /// No event source could be created.
    EventSource,
    /// The key-down event could not be created.
    KeyDown,
    /// The key-up event could not be created.
    KeyUp,
    /// The system did not insert a keyboard input it was handed.
    SendInput,
}

/// Why a simulation did not take place or did not complete.
///
/// A missing permission has no variant of its own: nothing here looks at the
/// trust state before simulating, so a refusal by the system shows up as the
/// failure of the stage it hit.
#[derive(Clone, Copy, Debug, PartialEq, Eq, Structural)]
pub enum SimulationError {
    /// The platform has no backend.
    PlatformUnsupported(Platform),
    /// A native facility failed at the given stage.
    NativeApiFailure(Stage),
}

impl Stage {
    /// The short name of the stage.
    pub open spec fn name(self) -> Seq<char> {
        match self {
            Stage::EventSource => "event-source"@,
            Stage::KeyDown => "key-down"@,
            Stage::KeyUp => "key-up"@,
            Stage::SendInput => "send-input"@,
        }
    }

    /// The short name of the stage, to tag a failure with.
    pub fn tag(&self) -> (tag: String)
        ensures
            tag@ == self.name(),
    {
        match self {
            Stage::EventSource => "event-source".to_string(),
            Stage::KeyDown => "key-down".to_string(),
            Stage::KeyUp => "key-up".to_string(),
            Stage::SendInput => "send-input".to_string(),
        }
    }

    /// The human-readable description of a failure at this stage.
    pub open spec fn text(self) -> Seq<char> {
        match self {
            Stage::EventSource => "Failed to create event source"@,
            Stage::KeyDown => "Failed to create key down event"@,
            Stage::KeyUp => "Failed to create key up event"@,
            Stage::SendInput => "SendInput failed"@,
        }
    }
}

impl SimulationError {
    /// The human-readable message that crosses the command boundary.
    pub open spec fn text(self) -> Seq<char> {
        match self {
            SimulationError::PlatformUnsupported(Platform::Linux) => {
                "Linux support not yet implemented"@
            },
            SimulationError::PlatformUnsupported(_) => "Platform not supported"@,
            SimulationError::NativeApiFailure(stage) => stage.text(),
        }
    }

    /// Whether the error says that the platform has no backend.
    pub open spec fn unsupported(self) -> bool {
        self is PlatformUnsupported
    }

    pub fn is_platform_unsupported(&self) -> (yes: bool)
        ensures
            yes == self.unsupported(),
    {
        match self {
            SimulationError::PlatformUnsupported(_) => true,
            SimulationError::NativeApiFailure(_) => false,
        }
    }

    /// The stage that failed, if a native facility did.
    pub fn stage(&self) -> (stage: Option<Stage>)
        ensures
            stage == match *self {
                SimulationError::NativeApiFailure(s) => Some(s),
                SimulationError::PlatformUnsupported(_) => None,
            },
    {
        match self {
            SimulationError::NativeApiFailure(s) => Some(*s),
            SimulationError::PlatformUnsupported(_) => None,
        }
    }

    /// Renders the error as the message handed to the caller.
    pub fn message(&self) -> (message: String)
        ensures
            message@ == self.text(),
    {
        match self {
            SimulationError::PlatformUnsupported(Platform::Linux) => {
                "Linux support not yet implemented".to_string()
            },
            SimulationError::PlatformUnsupported(_) => "Platform not supported".to_string(),
            SimulationError::NativeApiFailure(Stage::EventSource) => {
                "Failed to create event source".to_string()
            },
            SimulationError::NativeApiFailure(Stage::KeyDown) => {
                "Failed to create key down event".to_string()
            },
            SimulationError::NativeApiFailure(Stage::KeyUp) => {
                "Failed to create key up event".to_string()
            },
            SimulationError::NativeApiFailure(Stage::SendInput) => "SendInput failed".to_string(),
        }
    }
}

/// The message of a native failure names its stage: two stages never share a
/// message.
pub proof fn lemma_message_identifies_stage(a: Stage, b: Stage)
    requires
        SimulationError::NativeApiFailure(a).text() == SimulationError::NativeApiFailure(b).text(),
    ensures
        a == b,
{
    reveal_strlit("Failed to create event source");
    reveal_strlit("Failed to create key down event");
    reveal_strlit("Failed to create key up event");
    reveal_strlit("SendInput failed");
    assert(Stage::EventSource.text().len() == 29);
    assert(Stage::KeyDown.text().len() == 31);
    assert(Stage::KeyUp.text().len() == 29);
    assert(Stage::SendInput.text().len() == 16);
    assert(Stage::EventSource.text()[17] == 'e');
    assert(Stage::KeyUp.text()[17] == 'k');
}

/// A message never leaves it open whether the platform or a native facility
/// was at fault.
pub proof fn lemma_message_identifies_class(a: SimulationError, b: SimulationError)
    requires
        a.text() == b.text(),
    ensures
        a.unsupported() == b.unsupported(),
{
    reveal_strlit("Failed to create event source");
    reveal_strlit("Failed to create key down event");
    reveal_strlit("Failed to create key up event");
    reveal_strlit("SendInput failed");
    reveal_strlit("Linux support not yet implemented");
    reveal_strlit("Platform not supported");
    assert("Failed to create event source"@[0] == 'F');
    assert("Failed to create key down event"@[0] == 'F');
    assert("Failed to create key up event"@[0] == 'F');
    assert("SendInput failed"@[0] == 'S');
    assert("Linux support not yet implemented"@[0] == 'L');
    assert("Platform not supported"@[0] == 'P');
}

} // verus!
