use vstd::prelude::*;
use vstd::string::StringExecFns;

verus! {

/// The names of the channels that the bridge publishes on and subscribes to.
pub struct TopicNames {
    /// Engagement service, queried directly or reached through the two keys below.
    pub engage_service: String,
    /// Request channel of the engagement service, for a bridge without direct queries.
    pub engage_request: String,
    /// Reply channel of the engagement service, for a bridge without direct queries.
    pub engage_reply: String,
    /// Outbound gate-mode commands.
    pub gate_mode_command: String,
    /// Outbound gear commands.
    pub gear_command: String,
    /// Outbound control commands.
    pub control_command: String,
    /// Inbound gate-mode reports.
    pub gate_mode_report: String,
    /// Inbound engagement reports.
    pub engage_report: String,
    /// Inbound gear reports.
    pub gear_report: String,
    /// Inbound velocity reports.
    pub velocity_report: String,
}

/// The prefix of every message channel: the caller's prefix, followed by `rt/`
/// unless the bridge forwards ROS 2 names unchanged.
pub open spec fn routed_prefix(ros2: bool, prefix: Seq<char>) -> Seq<char> {
    if ros2 {
        prefix + ""@
    } else {
        prefix + "rt/"@
    }
}

/// The engagement service's name: prefixed only where names are forwarded unchanged.
pub open spec fn engage_service_name(ros2: bool, prefix: Seq<char>) -> Seq<char> {
    if ros2 {
        prefix + "api/autoware/set/engage"@
    } else {
        "api/autoware/set/engage"@
    }
}

impl TopicNames {
    /// Every name as computed from the mode and the caller's prefix.
    pub open spec fn names_for(&self, ros2: bool, prefix: Seq<char>) -> bool {
        let rt = routed_prefix(ros2, prefix);
        let service = engage_service_name(ros2, prefix);
        &&& self.engage_service@ == service
        &&& self.engage_request@ == prefix + "rq/"@ + service + "Request"@
        &&& self.engage_reply@ == prefix + "rr/"@ + service + "Reply"@
        &&& self.gate_mode_command@ == rt + "control/gate_mode_cmd"@
        &&& self.gear_command@ == rt + "external/selected/gear_cmd"@
        &&& self.control_command@ == rt + "external/selected/control_cmd"@
        &&& self.gate_mode_report@ == rt + "control/current_gate_mode"@
        &&& self.engage_report@ == rt + "api/autoware/get/engage"@
        &&& self.gear_report@ == rt + "vehicle/status/gear_status"@
        &&& self.velocity_report@ == rt + "vehicle/status/velocity_status"@
    }

    /// Computes the channel names for a mode and a caller-supplied prefix.
    pub fn new(ros2: bool, prefix: &str) -> (r: Self)
        ensures
            r.names_for(ros2, prefix@),
    {
        let rt = concat(prefix, if ros2 { "" } else { "rt/" });
        let service = if ros2 {
            concat(prefix, "api/autoware/set/engage")
        } else {
            String::from_str("api/autoware/set/engage")
        };
        let mut engage_request = concat(prefix, "rq/");
        engage_request.append(service.as_str());
        engage_request.append("Request");
        let mut engage_reply = concat(prefix, "rr/");
        engage_reply.append(service.as_str());
        engage_reply.append("Reply");
        let rt = rt.as_str();
        TopicNames {
            engage_service: service,
            engage_request,
            engage_reply,
            gate_mode_command: concat(rt, "control/gate_mode_cmd"),
            gear_command: concat(rt, "external/selected/gear_cmd"),
            control_command: concat(rt, "external/selected/control_cmd"),
            gate_mode_report: concat(rt, "control/current_gate_mode"),
            engage_report: concat(rt, "api/autoware/get/engage"),
            gear_report: concat(rt, "vehicle/status/gear_status"),
            velocity_report: concat(rt, "vehicle/status/velocity_status"),
        }
    }
}

fn concat(a: &str, b: &str) -> (r: String)
    ensures
        r@ == a@ + b@,
{
    let mut s = String::from_str(a);
    s.append(b);
    s
}

} // verus!
