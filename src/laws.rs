use vstd::prelude::*;
use crate::controller::toggled;
use crate::limits::{MAX_SPEED, STEP_SPEED};
use crate::state::{
    after_input, after_inputs, speed_in_range, steering_in_range, ControlInput, ControlState,
    GATE_MODE_AUTO, GATE_MODE_EXTERNAL,
};
use crate::status::with_velocity_report;

verus! {

/// Whatever operator inputs arrive, a target speed that starts within
/// `[0, MAX_SPEED]` stays there.
pub proof fn lemma_speed_stays_in_range(s: ControlState, inputs: Seq<ControlInput>)
    requires
        speed_in_range(s.target_velocity as int),
    ensures
        speed_in_range(after_inputs(s, inputs).target_velocity as int),
    decreases inputs.len(),
{
    if inputs.len() > 0 {
        lemma_speed_stays_in_range(s, inputs.drop_last());
    }
}

/// Raising the speed at its largest value leaves it there, and lowering it
/// by more than what is left stops at zero.
pub proof fn lemma_speed_saturates(s: ControlState)
    ensures
        s.target_velocity == MAX_SPEED ==> after_input(s, ControlInput::IncreaseSpeed)
            == s,
        0 <= s.target_velocity < STEP_SPEED ==> after_input(
            s,
            ControlInput::DecreaseSpeed,
        ).target_velocity == 0,
{
}

/// Whatever operator inputs arrive, a steering angle that starts within
/// `[-MAX_STEER_ANGLE, MAX_STEER_ANGLE]` stays there.
pub proof fn lemma_steering_stays_in_range(s: ControlState, inputs: Seq<ControlInput>)
    requires
        steering_in_range(s.steering_angle as int),
    ensures
        steering_in_range(after_inputs(s, inputs).steering_angle as int),
    decreases inputs.len(),
{
    if inputs.len() > 0 {
        lemma_steering_stays_in_range(s, inputs.drop_last());
    }
}

/// Centering the steering gives an angle of exactly zero, from any angle.
pub proof fn lemma_center_steering_is_zero(s: ControlState)
    ensures
        after_input(s, ControlInput::CenterSteering).steering_angle == 0,
{
}

/// Setting the speed to zero twice in a row gives the state that doing it once gives.
pub proof fn lemma_zero_speed_idempotent(s: ControlState)
    ensures
        after_input(after_input(s, ControlInput::ZeroSpeed), ControlInput::ZeroSpeed)
            == after_input(s, ControlInput::ZeroSpeed),
{
}

/// A toggle from auto requests external, a toggle from external requests
/// auto, and two toggles from auto request auto again.
pub proof fn lemma_toggle_round_trip()
    ensures
        toggled(GATE_MODE_AUTO) == GATE_MODE_EXTERNAL,
        toggled(GATE_MODE_EXTERNAL) == GATE_MODE_AUTO,
        toggled(toggled(GATE_MODE_AUTO)) == GATE_MODE_AUTO,
{
}

/// A velocity report that failed to decode leaves the state, and so the
/// reported velocity, as it was.
pub proof fn lemma_malformed_velocity_report_ignored(s: ControlState)
    ensures
        with_velocity_report(s, None) == s,
        with_velocity_report(s, None).reported_velocity == s.reported_velocity,
{
}

} // verus!
