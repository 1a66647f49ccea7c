//! The backend for the platform on which nothing is implemented yet. Whether
//! input can be synthesised there depends on the display server, and no
//! attempt is made: every operation answers at once and makes no native call.

use crate::error::SimulationError;
use crate::platform::Platform;
use vstd::prelude::*;

verus! {

/// The permission to synthesise input: never granted.
pub fn check_permissions() -> (granted: bool)
    ensures
        !granted,
{
    false
}

/// The request for that permission: never initiated.
pub fn request_permissions() -> (initiated: bool)
    ensures
        !initiated,
{
    false
}

/// The simulation of copy: refused.
pub fn simulate_copy() -> (result: Result<(), String>)
    ensures
        result is Err,
        result->Err_0@ == SimulationError::PlatformUnsupported(Platform::Linux).text(),
{
    Err("Linux support not yet implemented".to_string())
}

/// The simulation of paste: refused.
pub fn simulate_paste() -> (result: Result<(), String>)
    ensures
        result is Err,
        result->Err_0@ == SimulationError::PlatformUnsupported(Platform::Linux).text(),
{
    Err("Linux support not yet implemented".to_string())
}

} // verus!
