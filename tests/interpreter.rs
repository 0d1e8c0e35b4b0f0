use zenoh_manual_control::limits::{MAX_SPEED, MAX_STEER_ANGLE, STEP_SPEED, STEP_STEER_ANGLE};
use zenoh_manual_control::state::{ControlInput, ControlState};

#[test]
fn starts_at_rest() {
    let s = ControlState::new();
    assert_eq!(s.target_velocity, 0);
    assert_eq!(s.steering_angle, 0);
    assert_eq!(s.gate_mode, 0);
    assert!(!s.engaged);
    assert_eq!(s.gear, 0);
    assert_eq!(s.reported_velocity, 0);
}

#[test]
fn increase_speed_adds_one_step() {
    let mut s = ControlState::new();
    s.increase_speed();
    assert_eq!(s.target_velocity, 1389);
    s.increase_speed();
    assert_eq!(s.target_velocity, 2778);
}

#[test]
fn increase_speed_at_max_is_unchanged() {
    let mut s = ControlState::new();
    s.target_velocity = MAX_SPEED;
    let before = s;
    s.increase_speed();
    assert_eq!(s, before);
    assert_eq!(s.target_velocity, 27780);
}

#[test]
fn increase_speed_near_max_clamps() {
    let mut s = ControlState::new();
    s.target_velocity = MAX_SPEED - 100;
    s.increase_speed();
    assert_eq!(s.target_velocity, MAX_SPEED);
}

#[test]
fn decrease_speed_below_zero_clamps() {
    let mut s = ControlState::new();
    s.target_velocity = 1000;
    s.decrease_speed();
    assert_eq!(s.target_velocity, 0);
    s.decrease_speed();
    assert_eq!(s.target_velocity, 0);
}

#[test]
fn speed_stays_in_range_over_many_inputs() {
    let mut s = ControlState::new();
    for _ in 0..30 {
        s.increase_speed();
        assert!(s.target_velocity >= 0 && s.target_velocity <= MAX_SPEED);
    }
    assert_eq!(s.target_velocity, MAX_SPEED);
    for _ in 0..30 {
        s.decrease_speed();
        assert!(s.target_velocity >= 0 && s.target_velocity <= MAX_SPEED);
    }
    assert_eq!(s.target_velocity, 0);
}

#[test]
fn zero_speed_twice_equals_once() {
    let mut once = ControlState::new();
    once.target_velocity = 4 * STEP_SPEED;
    once.steering_angle = 300;
    let mut twice = once;
    once.zero_speed();
    twice.zero_speed();
    twice.zero_speed();
    assert_eq!(once, twice);
    assert_eq!(once.target_velocity, 0);
    assert_eq!(once.steering_angle, 300);
}

#[test]
fn steering_moves_by_one_step() {
    let mut s = ControlState::new();
    s.steer_left();
    assert_eq!(s.steering_angle, STEP_STEER_ANGLE);
    s.steer_right();
    s.steer_right();
    assert_eq!(s.steering_angle, -174);
}

#[test]
fn steering_stays_in_range_and_centers() {
    let mut s = ControlState::new();
    for _ in 0..40 {
        s.steer_left();
        assert!(s.steering_angle >= -MAX_STEER_ANGLE && s.steering_angle <= MAX_STEER_ANGLE);
    }
    assert_eq!(s.steering_angle, 3925);
    s.center_steering();
    assert_eq!(s.steering_angle, 0);
    for _ in 0..40 {
        s.steer_right();
        assert!(s.steering_angle >= -MAX_STEER_ANGLE && s.steering_angle <= MAX_STEER_ANGLE);
    }
    assert_eq!(s.steering_angle, -3925);
    s.center_steering();
    assert_eq!(s.steering_angle, 0);
}

#[test]
fn apply_input_dispatches() {
    let mut s = ControlState::new();
    s.apply_input(ControlInput::IncreaseSpeed);
    s.apply_input(ControlInput::IncreaseSpeed);
    s.apply_input(ControlInput::DecreaseSpeed);
    s.apply_input(ControlInput::SteerRight);
    assert_eq!(s.target_velocity, 1389);
    assert_eq!(s.steering_angle, -174);
    s.apply_input(ControlInput::ZeroSpeed);
    s.apply_input(ControlInput::CenterSteering);
    assert_eq!(s, ControlState::new());
    s.apply_input(ControlInput::SteerLeft);
    assert_eq!(s.steering_angle, 174);
}
