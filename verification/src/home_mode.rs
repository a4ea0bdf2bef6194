//! Home-mode guard: the tray exits at start when the service is set to
//! manual or disabled and is not running.

use vstd::prelude::*;

verus! {

/// SCM start type `SERVICE_AUTO_START`.
pub const START_AUTO: u32 = 2;

/// SCM start type `SERVICE_DEMAND_START`.
pub const START_DEMAND: u32 = 3;

/// SCM start type `SERVICE_DISABLED`.
pub const START_DISABLED: u32 = 4;

/// Whether the tray should exit at start: the service is manual/disabled and
/// not running. A running service (even hand-started) keeps the tray, and
/// so does an automatic start that is stopped (crash: the grey icon is the signal).
pub fn tray_should_exit(start_type: u32, running: bool) -> (r: bool)
    ensures
        r == (!running && (start_type == START_DEMAND || start_type == START_DISABLED)),
{
    !running && (start_type == START_DEMAND || start_type == START_DISABLED)
}

} // verus!
