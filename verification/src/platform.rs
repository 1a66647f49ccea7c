//! Platform identity and the static capability table.

use vstd::prelude::*;

verus! {

/// The operating-system families the library tells apart.
#[derive(Clone, Copy, Debug, PartialEq, Eq, Structural)]
pub enum Platform {
    /// Input can be synthesised once the user has granted the process
    /// accessibility trust.
    MacOs,
    /// Input can be synthesised by any process.
    Windows,
    /// No backend exists yet.
    Linux,
    /// Any other target.
    Other,
}

impl Platform {
    /// A backend exists that can synthesise shortcuts.
    pub open spec fn supported(self) -> bool {
        self is MacOs || self is Windows
    }

    /// The user has to grant trust before input can be synthesised.
    pub open spec fn gated(self) -> bool {
        self is MacOs
    }

    pub fn is_supported(&self) -> (yes: bool)
        ensures
            yes == self.supported(),
    {
        match self {
            Platform::MacOs | Platform::Windows => true,
            Platform::Linux | Platform::Other => false,
        }
    }

    pub fn is_gated(&self) -> (yes: bool)
        ensures
            yes == self.gated(),
    {
        match self {
            Platform::MacOs => true,
            _ => false,
        }
    }
}

/// Capabilities of the ergonomic mode on one platform.
#[derive(Clone, Copy, Debug, PartialEq, Eq, Structural)]
pub struct ErgonomicCapabilities {
    /// Whether the platform supports ergonomic mode at all.
    pub platform_supported: bool,
    /// Whether the platform requires a permission grant.
    pub requires_permissions: bool,
    /// Whether a native permission dialog can be shown.
    pub has_native_permission_dialog: bool,
}

impl ErgonomicCapabilities {
    /// A permission is only ever required where simulation is supported, and
    /// a dialog only exists where a permission is required.
    pub open spec fn consistent(self) -> bool {
        &&& self.requires_permissions ==> self.platform_supported
        &&& self.has_native_permission_dialog ==> self.requires_permissions
    }

    /// The capabilities of `platform`.
    pub open spec fn of(platform: Platform) -> ErgonomicCapabilities {
        ErgonomicCapabilities {
            platform_supported: platform.supported(),
            requires_permissions: platform.gated(),
            has_native_permission_dialog: platform.gated(),
        }
    }
}

} // verus!
