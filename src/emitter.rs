use vstd::prelude::*;
use crate::limits::{clamp, clamp_spec, MAX_ACCELERATION};
use crate::state::{ControlState, GEAR_DRIVE};

verus! {

/// The outbound control command of one emission cycle.
#[derive(Clone, Copy, Debug, PartialEq, Eq, Structural)]
pub struct ControlCommand {
    /// Seconds of the time stamp shared by the command and its two parts.
    pub stamp_sec: i32,
    /// Nanoseconds of the time stamp.
    pub stamp_nanosec: u32,
    /// Steering angle, in units of 0.0001 rad.
    pub steering_tire_angle: i32,
    /// Steering rate; rate control is not implemented, so always zero.
    pub steering_tire_rotation_rate: i32,
    /// Signed speed, in mm/s: negative unless the gear is drive.
    pub speed: i64,
    /// Acceleration, in mm/s^2.
    pub acceleration: i32,
    /// Jerk; always zero.
    pub jerk: i32,
}

/// The target speed, with its sign inverted for every gear but drive.
pub open spec fn signed_speed(s: ControlState) -> int {
    if s.gear == GEAR_DRIVE {
        s.target_velocity as int
    } else {
        -(s.target_velocity as int)
    }
}

pub open spec fn abs_spec(x: int) -> int {
    if x < 0 {
        -x
    } else {
        x
    }
}

/// The gap between target and reported speed, bounded by the largest acceleration.
pub open spec fn commanded_acceleration(s: ControlState) -> int {
    clamp_spec(
        s.target_velocity - abs_spec(s.reported_velocity as int),
        -MAX_ACCELERATION,
        MAX_ACCELERATION as int,
    )
}

impl ControlCommand {
    /// Derives the command of one emission cycle from a snapshot of the
    /// control state and the current time.
    pub fn from_state(state: &ControlState, stamp_sec: i32, stamp_nanosec: u32) -> (r: Self)
        ensures
            r.stamp_sec == stamp_sec,
            r.stamp_nanosec == stamp_nanosec,
            r.steering_tire_angle == state.steering_angle,
            r.steering_tire_rotation_rate == 0,
            r.speed == signed_speed(*state),
            r.acceleration == commanded_acceleration(*state),
            r.jerk == 0,
    {
        let target = state.target_velocity as i64;
        let speed = if state.gear == GEAR_DRIVE {
            target
        } else {
            -target
        };
        let reported = state.reported_velocity as i64;
        let reported_abs = if reported < 0 {
            -reported
        } else {
            reported
        };
        let acceleration = clamp(
            target - reported_abs,
            -MAX_ACCELERATION as i64,
            MAX_ACCELERATION as i64,
        );
        ControlCommand {
            stamp_sec,
            stamp_nanosec,
            steering_tire_angle: state.steering_angle,
            steering_tire_rotation_rate: 0,
            speed,
            acceleration: acceleration as i32,
            jerk: 0,
        }
    }
}

} // verus!
