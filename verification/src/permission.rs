//! Checking and requesting the permission to synthesise input.

use crate::native::{Desktop, NativeCall};
use crate::platform::Platform;
use vstd::prelude::*;

verus! {

/// Where a permission check or request stands.
#[derive(Clone, Copy, Debug, PartialEq, Eq, Structural)]
pub enum PermissionFlow {
    /// The system is being asked whether the process is trusted.
    Asking,
    /// The system is being told to prompt the user for trust.
    Prompting,
    /// The answer is known.
    Settled(bool),
}

impl PermissionFlow {
    /// The check of the permission on `platform` before any native call.
    /// Only where trust gates input synthesis is the system asked; elsewhere
    /// the answer is known: granted where any process may synthesise input,
    /// not granted where there is no backend.
    pub open spec fn check(platform: Platform) -> PermissionFlow {
        match platform {
            Platform::MacOs => PermissionFlow::Asking,
            Platform::Windows => PermissionFlow::Settled(true),
            Platform::Linux | Platform::Other => PermissionFlow::Settled(false),
        }
    }

    /// The request for the permission on `platform` before any native call.
    pub open spec fn request(platform: Platform) -> PermissionFlow {
        match platform {
            Platform::MacOs => PermissionFlow::Prompting,
            Platform::Windows => PermissionFlow::Settled(true),
            Platform::Linux | Platform::Other => PermissionFlow::Settled(false),
        }
    }

    /// The flow and the system once the host has gone `rounds` times round
    /// the loop: make the pending call, take the next of `replies` as what
    /// it returned, resume. A round changes nothing once the answer is known
    /// or the replies have run out.
    pub open spec fn run(self, replies: Seq<u32>, rounds: nat) -> (PermissionFlow, Desktop)
        decreases rounds,
    {
        if rounds == 0 {
            (self, Desktop::untouched())
        } else {
            let (flow, desktop) = self.run(replies, (rounds - 1) as nat);
            match flow.spec_pending() {
                Some(call) if rounds <= replies.len() => (
                    flow.spec_resume(replies[rounds - 1]),
                    desktop.apply(call, replies[rounds - 1]),
                ),
                _ => (flow, desktop),
            }
        }
    }

    /// The native call the flow waits for, if the answer is not known yet.
    pub open spec fn spec_pending(&self) -> Option<NativeCall> {
        match *self {
            PermissionFlow::Asking => Some(NativeCall::QueryTrust),
            PermissionFlow::Prompting => Some(NativeCall::QueryTrustWithPrompt),
            PermissionFlow::Settled(_) => None,
        }
    }

    /// The flow after the pending call has returned. A check answers what
    /// the system answered. A request answers `true`: the prompt was asked
    /// for, and what the user makes of it is not known when the call returns.
    pub open spec fn spec_resume(self, returned: u32) -> PermissionFlow {
        match self {
            PermissionFlow::Asking => PermissionFlow::Settled(returned != 0),
            PermissionFlow::Prompting => PermissionFlow::Settled(true),
            PermissionFlow::Settled(answer) => PermissionFlow::Settled(answer),
        }
    }

    /// The answer, once it is known.
    pub open spec fn spec_answer(&self) -> Option<bool> {
        match *self {
            PermissionFlow::Settled(answer) => Some(answer),
            _ => None,
        }
    }

    #[verifier::when_used_as_spec(spec_pending)]
    pub fn pending(&self) -> (call: Option<NativeCall>)
        ensures
            call == self.spec_pending(),
            call is None <==> self.spec_answer() is Some,
    {
        match self {
            PermissionFlow::Asking => Some(NativeCall::QueryTrust),
            PermissionFlow::Prompting => Some(NativeCall::QueryTrustWithPrompt),
            PermissionFlow::Settled(_) => None,
        }
    }

    #[verifier::when_used_as_spec(spec_resume)]
    pub fn resume(self, returned: u32) -> (next: PermissionFlow)
        ensures
            next == self.spec_resume(returned),
            next is Settled,
    {
        match self {
            PermissionFlow::Asking => PermissionFlow::Settled(returned != 0),
            PermissionFlow::Prompting => PermissionFlow::Settled(true),
            PermissionFlow::Settled(answer) => PermissionFlow::Settled(answer),
        }
    }

    #[verifier::when_used_as_spec(spec_answer)]
    pub fn answer(&self) -> (answer: Option<bool>)
        ensures
            answer == self.spec_answer(),
    {
        match self {
            PermissionFlow::Settled(answer) => Some(*answer),
            _ => None,
        }
    }
}

} // verus!
