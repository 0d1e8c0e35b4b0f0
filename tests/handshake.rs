use zenoh_manual_control::controller::ManualController;
use zenoh_manual_control::state::{ControlState, GATE_MODE_AUTO, GATE_MODE_EXTERNAL};
use zenoh_manual_control::topics::TopicNames;

fn controller(ros2: bool) -> ManualController {
    let mut c = ManualController::new(ros2, String::from("scope/"));
    c.guid = 0x0102030405060708;
    c
}

#[test]
fn toggle_from_auto_requests_external() {
    let mut c = controller(false);
    let mut s = ControlState::new();
    let t = c.toggle_gate_mode(&mut s);
    assert!(t.external);
    assert_eq!(s.gate_mode, GATE_MODE_EXTERNAL);
    assert_eq!(t.gate_mode_message, vec![0, 1, 0, 0, 1]);
    let e = t.engage.expect("an engagement request");
    assert!(!e.synchronous);
    assert_eq!(e.sequence_number, 0);
    assert_eq!(
        e.payload,
        vec![0, 1, 0, 0, 8, 7, 6, 5, 4, 3, 2, 1, 0, 0, 0, 0, 0, 0, 0, 0, 1]
    );
    assert_eq!(c.sequence_number, 1);
}

#[test]
fn toggle_from_external_requests_auto() {
    let mut c = controller(false);
    let mut s = ControlState::new();
    s.gate_mode = GATE_MODE_EXTERNAL;
    let t = c.toggle_gate_mode(&mut s);
    assert!(!t.external);
    assert_eq!(s.gate_mode, GATE_MODE_AUTO);
    assert_eq!(t.gate_mode_message, vec![0, 1, 0, 0, 0]);
    assert!(t.engage.is_none());
    assert_eq!(c.sequence_number, 0);
}

#[test]
fn toggle_twice_returns_to_auto() {
    let mut c = controller(false);
    let mut s = ControlState::new();
    assert!(c.toggle_gate_mode(&mut s).external);
    assert!(!c.toggle_gate_mode(&mut s).external);
    assert_eq!(s.gate_mode, GATE_MODE_AUTO);
}

#[test]
fn sequence_numbers_increase() {
    let mut c = controller(false);
    let mut s = ControlState::new();
    c.toggle_gate_mode(&mut s);
    c.toggle_gate_mode(&mut s);
    let e = c.toggle_gate_mode(&mut s).engage.expect("an engagement request");
    assert_eq!(e.sequence_number, 1);
    assert_eq!(e.payload[12], 1);
    assert_eq!(c.sequence_number, 2);
}

#[test]
fn direct_query_sends_a_bare_flag() {
    let mut c = controller(true);
    let mut s = ControlState::new();
    let e = c.toggle_gate_mode(&mut s).engage.expect("an engagement request");
    assert!(e.synchronous);
    assert_eq!(e.payload, vec![0, 1, 0, 0, 1]);
    assert_eq!(c.sequence_number, 0);
}

#[test]
fn unknown_gate_mode_toggles_to_auto() {
    let mut c = controller(false);
    let mut s = ControlState::new();
    s.gate_mode = 5;
    let t = c.toggle_gate_mode(&mut s);
    assert!(!t.external);
    assert_eq!(s.gate_mode, GATE_MODE_AUTO);
}

#[test]
fn gear_command_is_recorded_and_encoded() {
    let c = controller(false);
    let mut s = ControlState::new();
    let m = c.pub_gear_command(&mut s, 20);
    assert_eq!(s.gear, 20);
    assert_eq!(m, vec![0, 1, 0, 0, 0, 0, 0, 0, 0, 0, 0, 0, 20]);
}

#[test]
fn reply_with_matching_tag_is_recognised() {
    let c = controller(false);
    let mut reply = vec![0u8, 1, 0, 0, 8, 7, 6, 5, 4, 3, 2, 1, 3, 0, 0, 0, 0, 0, 0, 0];
    reply.extend_from_slice(&[0, 0, 0, 0, 0, 0, 0, 0]);
    assert!(c.is_reply_to(3, &reply));
    assert!(!c.is_reply_to(4, &reply));
    reply[5] = 0;
    assert!(!c.is_reply_to(3, &reply));
}

#[test]
fn big_endian_reply_is_recognised() {
    let c = controller(false);
    let reply = vec![0u8, 0, 0, 0, 1, 2, 3, 4, 5, 6, 7, 8, 0, 0, 0, 0, 0, 0, 0, 3];
    assert!(c.is_reply_to(3, &reply));
    assert!(!c.is_reply_to(0x0300000000000000, &reply));
}

#[test]
fn short_or_unknown_reply_is_rejected() {
    let c = controller(false);
    let reply = vec![0u8, 1, 0, 0, 8, 7, 6, 5, 4, 3, 2, 1, 3, 0, 0, 0, 0, 0, 0];
    assert!(!c.is_reply_to(3, &reply));
    let reply = vec![0u8, 5, 0, 0, 8, 7, 6, 5, 4, 3, 2, 1, 3, 0, 0, 0, 0, 0, 0, 0];
    assert!(!c.is_reply_to(3, &reply));
}

#[test]
fn topic_names_with_routing_prefix() {
    let t = TopicNames::new(false, "scope/");
    assert_eq!(t.engage_service, "api/autoware/set/engage");
    assert_eq!(t.engage_request, "scope/rq/api/autoware/set/engageRequest");
    assert_eq!(t.engage_reply, "scope/rr/api/autoware/set/engageReply");
    assert_eq!(t.gate_mode_command, "scope/rt/control/gate_mode_cmd");
    assert_eq!(t.gear_command, "scope/rt/external/selected/gear_cmd");
    assert_eq!(t.control_command, "scope/rt/external/selected/control_cmd");
    assert_eq!(t.gate_mode_report, "scope/rt/control/current_gate_mode");
    assert_eq!(t.engage_report, "scope/rt/api/autoware/get/engage");
    assert_eq!(t.gear_report, "scope/rt/vehicle/status/gear_status");
    assert_eq!(t.velocity_report, "scope/rt/vehicle/status/velocity_status");
}

#[test]
fn topic_names_for_ros2_bridge() {
    let c = ManualController::new(true, String::new());
    assert!(c.ros2);
    assert_eq!(c.sequence_number, 0);
    assert_eq!(c.topics.engage_service, "api/autoware/set/engage");
    assert_eq!(c.topics.gate_mode_command, "control/gate_mode_cmd");
    assert_eq!(c.topics.velocity_report, "vehicle/status/velocity_status");
    let t = TopicNames::new(true, "p/");
    assert_eq!(t.engage_service, "p/api/autoware/set/engage");
    assert_eq!(t.engage_request, "p/rq/p/api/autoware/set/engageRequest");
    assert_eq!(t.gear_report, "p/vehicle/status/gear_status");
}
