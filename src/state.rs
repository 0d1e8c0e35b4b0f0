use vstd::prelude::*;
use crate::limits::{
    clamp, clamp_spec, MAX_SPEED, MAX_STEER_ANGLE, STEP_SPEED, STEP_STEER_ANGLE,
};

verus! {

/// Gate-mode code of the autonomous stack driving.
pub const GATE_MODE_AUTO: u8 = 0;

/// Gate-mode code of this bridge's commands taking effect.
pub const GATE_MODE_EXTERNAL: u8 = 1;

/// Gear code of driving forward.
pub const GEAR_DRIVE: u8 = 2;

/// Gear code of driving backward.
pub const GEAR_REVERSE: u8 = 20;

/// Gear code of parking.
pub const GEAR_PARK: u8 = 22;

/// Gear code of the low gear.
pub const GEAR_LOW: u8 = 23;

/// One snapshot of the control state shared by the input handling and the
/// periodic emitter.
#[derive(Clone, Copy, Debug, PartialEq, Eq, Structural)]
pub struct ControlState {
    /// Commanded steering angle, in units of 0.0001 rad.
    pub steering_angle: i32,
    /// Commanded speed magnitude, in mm/s; the gear gives its sign.
    pub target_velocity: i32,
    /// Last requested or reported gate-mode code.
    pub gate_mode: u8,
    /// Whether the vehicle last reported that it is engaged.
    pub engaged: bool,
    /// Last requested or reported gear code; 0 until either happens.
    pub gear: u8,
    /// Last reported signed longitudinal velocity, in mm/s.
    pub reported_velocity: i32,
}

/// A discrete operator input that adjusts speed or steering.
#[derive(Clone, Copy, Debug, PartialEq, Eq, Structural)]
pub enum ControlInput {
    IncreaseSpeed,
    DecreaseSpeed,
    ZeroSpeed,
    SteerLeft,
    SteerRight,
    CenterSteering,
}

pub open spec fn speed_in_range(v: int) -> bool {
    0 <= v <= MAX_SPEED
}

pub open spec fn steering_in_range(a: int) -> bool {
    -MAX_STEER_ANGLE <= a <= MAX_STEER_ANGLE
}

pub open spec fn increased_speed(v: int) -> int {
    clamp_spec(v + STEP_SPEED, 0, MAX_SPEED as int)
}

pub open spec fn decreased_speed(v: int) -> int {
    clamp_spec(v - STEP_SPEED, 0, MAX_SPEED as int)
}

pub open spec fn steered_left(a: int) -> int {
    clamp_spec(a + STEP_STEER_ANGLE, -MAX_STEER_ANGLE, MAX_STEER_ANGLE as int)
}

pub open spec fn steered_right(a: int) -> int {
    clamp_spec(a - STEP_STEER_ANGLE, -MAX_STEER_ANGLE, MAX_STEER_ANGLE as int)
}

/// The state after one operator input.
pub open spec fn after_input(s: ControlState, input: ControlInput) -> ControlState {
    match input {
        ControlInput::IncreaseSpeed => ControlState {
            target_velocity: increased_speed(s.target_velocity as int) as i32,
            ..s
        },
        ControlInput::DecreaseSpeed => ControlState {
            target_velocity: decreased_speed(s.target_velocity as int) as i32,
            ..s
        },
        ControlInput::ZeroSpeed => ControlState { target_velocity: 0, ..s },
        ControlInput::SteerLeft => ControlState {
            steering_angle: steered_left(s.steering_angle as int) as i32,
            ..s
        },
        ControlInput::SteerRight => ControlState {
            steering_angle: steered_right(s.steering_angle as int) as i32,
            ..s
        },
        ControlInput::CenterSteering => ControlState { steering_angle: 0, ..s },
    }
}

/// The state after a sequence of operator inputs, applied in order.
pub open spec fn after_inputs(s: ControlState, inputs: Seq<ControlInput>) -> ControlState
    decreases inputs.len(),
{
    if inputs.len() == 0 {
        s
    } else {
        after_input(after_inputs(s, inputs.drop_last()), inputs.last())
    }
}

impl ControlState {
    /// Speed and steering lie within their bounds.
    pub open spec fn wf(&self) -> bool {
        &&& speed_in_range(self.target_velocity as int)
        &&& steering_in_range(self.steering_angle as int)
    }

    /// The state at startup: everything zero, gear not yet known.
    pub fn new() -> (r: Self)
        ensures
            r.steering_angle == 0,
            r.target_velocity == 0,
            r.gate_mode == GATE_MODE_AUTO,
            !r.engaged,
            r.gear == 0,
            r.reported_velocity == 0,
            r.wf(),
    {
        ControlState {
            steering_angle: 0,
            target_velocity: 0,
            gate_mode: GATE_MODE_AUTO,
            engaged: false,
            gear: 0,
            reported_velocity: 0,
        }
    }

    /// Raises the target speed by one step, up to the largest speed.
    pub fn increase_speed(&mut self)
        ensures
            *final(self) == after_input(*old(self), ControlInput::IncreaseSpeed),
    {
        let v = clamp(self.target_velocity as i64 + STEP_SPEED as i64, 0, MAX_SPEED as i64);
        self.target_velocity = v as i32;
    }

    /// Lowers the target speed by one step, down to zero.
    pub fn decrease_speed(&mut self)
        ensures
            *final(self) == after_input(*old(self), ControlInput::DecreaseSpeed),
    {
        let v = clamp(self.target_velocity as i64 - STEP_SPEED as i64, 0, MAX_SPEED as i64);
        self.target_velocity = v as i32;
    }

    /// Sets the target speed to zero.
    pub fn zero_speed(&mut self)
        ensures
            *final(self) == after_input(*old(self), ControlInput::ZeroSpeed),
    {
        self.target_velocity = 0;
    }

    /// Turns the steering one step to the left, up to the largest angle.
    pub fn steer_left(&mut self)
        ensures
            *final(self) == after_input(*old(self), ControlInput::SteerLeft),
    {
        let a = clamp(
            self.steering_angle as i64 + STEP_STEER_ANGLE as i64,
            -MAX_STEER_ANGLE as i64,
            MAX_STEER_ANGLE as i64,
        );
        self.steering_angle = a as i32;
    }

    /// Turns the steering one step to the right, down to the smallest angle.
    pub fn steer_right(&mut self)
        ensures
            *final(self) == after_input(*old(self), ControlInput::SteerRight),
    {
        let a = clamp(
            self.steering_angle as i64 - STEP_STEER_ANGLE as i64,
            -MAX_STEER_ANGLE as i64,
            MAX_STEER_ANGLE as i64,
        );
        self.steering_angle = a as i32;
    }

    /// Sets the steering angle to zero.
    pub fn center_steering(&mut self)
        ensures
            *final(self) == after_input(*old(self), ControlInput::CenterSteering),
    {
        self.steering_angle = 0;
    }

    /// Applies one operator input.
    pub fn apply_input(&mut self, input: ControlInput)
        ensures
            *final(self) == after_input(*old(self), input),
            old(self).wf() ==> final(self).wf(),
    {
        match input {
            ControlInput::IncreaseSpeed => self.increase_speed(),
            ControlInput::DecreaseSpeed => self.decrease_speed(),
            ControlInput::ZeroSpeed => self.zero_speed(),
            ControlInput::SteerLeft => self.steer_left(),
            ControlInput::SteerRight => self.steer_right(),
            ControlInput::CenterSteering => self.center_steering(),
        }
    }
}

} // verus!
