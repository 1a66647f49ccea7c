//! Ergonomic copy and paste: deciding, per operating-system family, how a
//! synthetic copy or paste shortcut is injected into the active application
//! and how the permission it needs is checked and requested.

pub mod error;
pub mod laws;
pub mod linux;
pub mod macos;
pub mod native;
pub mod permission;
pub mod platform;
pub mod simulation;
pub mod windows;

use crate::permission::PermissionFlow;
use crate::platform::{ErgonomicCapabilities, Platform};
use crate::simulation::{ShortcutKey, Simulation};
use vstd::prelude::*;

verus! {

/// The capabilities of the ergonomic mode on `platform`: a lookup that
/// touches nothing.
pub fn get_ergonomic_capabilities(platform: Platform) -> (capabilities: ErgonomicCapabilities)
    ensures
        capabilities == ErgonomicCapabilities::of(platform),
        capabilities.consistent(),
{
    match platform {
        Platform::MacOs => ErgonomicCapabilities {
            platform_supported: true,
            requires_permissions: true,
            has_native_permission_dialog: true,
        },
        Platform::Windows => ErgonomicCapabilities {
            platform_supported: true,
            requires_permissions: false,
            has_native_permission_dialog: false,
        },
        Platform::Linux => ErgonomicCapabilities {
            platform_supported: false,
            requires_permissions: false,
            has_native_permission_dialog: false,
        },
        Platform::Other => ErgonomicCapabilities {
            platform_supported: false,
            requires_permissions: false,
            has_native_permission_dialog: false,
        },
    }
}

/// Begins the check whether the permission to synthesise input is granted
/// on `platform`.
pub fn check_ergonomic_permissions(platform: Platform) -> (flow: PermissionFlow)
    ensures
        flow == PermissionFlow::check(platform),
        !platform.gated() ==> flow == PermissionFlow::Settled(platform.supported()),
{
    match platform {
        Platform::MacOs => macos::check_permissions(),
        Platform::Windows => PermissionFlow::Settled(windows::check_permissions()),
        Platform::Linux => PermissionFlow::Settled(linux::check_permissions()),
        Platform::Other => PermissionFlow::Settled(false),
    }
}

/// Begins the request for the permission to synthesise input on `platform`.
/// Where a request can be made its answer says that the request was
/// initiated, not that the permission was granted: for that, check again.
pub fn request_ergonomic_permissions(platform: Platform) -> (flow: PermissionFlow)
    ensures
        flow == PermissionFlow::request(platform),
        !platform.gated() ==> flow == PermissionFlow::Settled(platform.supported()),
{
    match platform {
        Platform::MacOs => macos::request_permissions(),
        Platform::Windows => PermissionFlow::Settled(windows::request_permissions()),
        Platform::Linux => PermissionFlow::Settled(linux::request_permissions()),
        Platform::Other => PermissionFlow::Settled(false),
    }
}

/// Begins the simulation of `key` on `platform`.
pub fn simulate_shortcut(platform: Platform, key: ShortcutKey) -> (simulation: Simulation)
    ensures
        simulation == Simulation::begin(platform, key),
        simulation.wf(),
        !platform.supported() ==> simulation.spec_pending() is None && simulation.spec_verdict()
            == Some(Err::<(), _>(error::SimulationError::PlatformUnsupported(platform))),
{
    match platform {
        Platform::MacOs => match key {
            ShortcutKey::Copy => Simulation::Command(macos::simulate_copy()),
            ShortcutKey::Paste => Simulation::Command(macos::simulate_paste()),
        },
        Platform::Windows => match key {
            ShortcutKey::Copy => Simulation::Control(windows::simulate_copy()),
            ShortcutKey::Paste => Simulation::Control(windows::simulate_paste()),
        },
        Platform::Linux | Platform::Other => Simulation::Unsupported { platform, key },
    }
}

/// Begins the simulation of the copy shortcut: command and `c` or control
/// and `C`.
pub fn simulate_copy(platform: Platform) -> (simulation: Simulation)
    ensures
        simulation == Simulation::begin(platform, ShortcutKey::Copy),
        simulation.wf(),
{
    simulate_shortcut(platform, ShortcutKey::Copy)
}

/// Begins the simulation of the paste shortcut: command and `v` or control
/// and `V`.
pub fn simulate_paste(platform: Platform) -> (simulation: Simulation)
    ensures
        simulation == Simulation::begin(platform, ShortcutKey::Paste),
        simulation.wf(),
{
    simulate_shortcut(platform, ShortcutKey::Paste)
}

} // verus!
