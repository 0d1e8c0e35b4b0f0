use vstd::prelude::*;

verus! {

/// Largest steering angle, in units of 0.0001 rad (22.5 degrees).
pub const MAX_STEER_ANGLE: i32 = 3925;

/// Steering change of one key press, in units of 0.0001 rad (1 degree).
pub const STEP_STEER_ANGLE: i32 = 174;

/// Largest target speed, in mm/s (100 km/h).
pub const MAX_SPEED: i32 = 27780;

/// Speed change of one key press, in mm/s (5 km/h).
pub const STEP_SPEED: i32 = 1389;

/// Bound on the magnitude of the commanded acceleration, in mm/s^2 (1 m/s^2).
pub const MAX_ACCELERATION: i32 = 1000;

/// `v` limited to the interval `[lo, hi]`.
pub open spec fn clamp_spec(v: int, lo: int, hi: int) -> int {
    if v < lo {
        lo
    } else if v > hi {
        hi
    } else {
        v
    }
}

/// Relies on num::clamp: `min` below `input`, `max` above it, else `input`.
#[verifier::external_body]
pub(crate) fn clamp(v: i64, lo: i64, hi: i64) -> (r: i64)
    requires
        lo <= hi,
    ensures
        r == clamp_spec(v as int, lo as int, hi as int),
{
    num::clamp(v, lo, hi)
}

} // verus!
