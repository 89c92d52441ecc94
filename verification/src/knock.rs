//! Knock control timing.

use vstd::prelude::*;

verus! {

/// Number of cylinders with individual knock control.
pub const KNOCK_CYLINDERS: usize = 4;

/// Knock-free time after which a cylinder's retard is reduced, in
/// nanoseconds (half a second).
pub const KNOCK_RECOVERY_DELAY_NS: u64 = 500_000_000;

/// Whether a cylinder last knocked long enough ago, at `last_knock`, for its
/// timing retard to be reduced at `now`; time does not run backwards.
pub fn recovery_due(now: u64, last_knock: u64) -> (due: bool)
    requires
        now >= last_knock,
    ensures
        due == (now - last_knock > KNOCK_RECOVERY_DELAY_NS),
{
    now - last_knock > KNOCK_RECOVERY_DELAY_NS
}

/// Whether `cylinder_id` names a cylinder with individual knock control.
pub fn is_knock_cylinder(cylinder_id: u8) -> (ok: bool)
    ensures
        ok == (cylinder_id < KNOCK_CYLINDERS),
{
    (cylinder_id as usize) < KNOCK_CYLINDERS
}

} // verus!
