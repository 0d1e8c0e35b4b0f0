use vstd::prelude::*;
use vstd::string::StringExecFns;
use crate::state::{
    ControlState, GATE_MODE_AUTO, GATE_MODE_EXTERNAL, GEAR_DRIVE, GEAR_LOW, GEAR_PARK,
    GEAR_REVERSE,
};
use crate::wire::{decode_engage, decode_gate_mode, decode_gear, engage_of, gate_mode_of, gear_of};

verus! {

/// The state after a gate-mode report; a report that failed to decode changes nothing.
pub open spec fn with_gate_mode_report(s: ControlState, report: Option<u8>) -> ControlState {
    match report {
        Some(m) => ControlState { gate_mode: m, ..s },
        None => s,
    }
}

/// The state after an engagement report; a report that failed to decode changes nothing.
pub open spec fn with_engage_report(s: ControlState, report: Option<bool>) -> ControlState {
    match report {
        Some(e) => ControlState { engaged: e, ..s },
        None => s,
    }
}

/// The state after a gear report; a report that failed to decode changes nothing.
pub open spec fn with_gear_report(s: ControlState, report: Option<u8>) -> ControlState {
    match report {
        Some(g) => ControlState { gear: g, ..s },
        None => s,
    }
}

/// The state after a velocity report; a report that failed to decode changes nothing.
pub open spec fn with_velocity_report(s: ControlState, report: Option<i32>) -> ControlState {
    match report {
        Some(v) => ControlState { reported_velocity: v, ..s },
        None => s,
    }
}

pub open spec fn engage_label(engaged: bool) -> Seq<char> {
    if engaged {
        "Ready"@
    } else {
        "Not Ready"@
    }
}

pub open spec fn gate_mode_label(mode: u8) -> Seq<char> {
    if mode == GATE_MODE_AUTO {
        "Auto"@
    } else if mode == GATE_MODE_EXTERNAL {
        "External"@
    } else {
        "Unknown"@
    }
}

pub open spec fn gear_label(gear: u8) -> Seq<char> {
    if gear == GEAR_DRIVE {
        "D"@
    } else if gear == GEAR_REVERSE {
        "R"@
    } else if gear == GEAR_PARK {
        "P"@
    } else if gear == GEAR_LOW {
        "L"@
    } else {
        "?"@
    }
}

/// The one-line, human-readable rendering of a state.
pub open spec fn status_text(s: ControlState) -> Seq<char> {
    "Engage:"@ + engage_label(s.engaged) + " Gate Mode:"@ + gate_mode_label(s.gate_mode)
        + " Gear:"@ + gear_label(s.gear)
}

fn engage_str(engaged: bool) -> (r: &'static str)
    ensures
        r@ == engage_label(engaged),
{
    if engaged {
        "Ready"
    } else {
        "Not Ready"
    }
}

fn gate_mode_str(mode: u8) -> (r: &'static str)
    ensures
        r@ == gate_mode_label(mode),
{
    if mode == GATE_MODE_AUTO {
        "Auto"
    } else if mode == GATE_MODE_EXTERNAL {
        "External"
    } else {
        "Unknown"
    }
}

fn gear_str(gear: u8) -> (r: &'static str)
    ensures
        r@ == gear_label(gear),
{
    if gear == GEAR_DRIVE {
        "D"
    } else if gear == GEAR_REVERSE {
        "R"
    } else if gear == GEAR_PARK {
        "P"
    } else if gear == GEAR_LOW {
        "L"
    } else {
        "?"
    }
}

impl ControlState {
    /// Records a decoded gate-mode report.
    pub fn apply_gate_mode_report(&mut self, report: Option<u8>)
        ensures
            *final(self) == with_gate_mode_report(*old(self), report),
    {
        if let Some(m) = report {
            self.gate_mode = m;
        }
    }

    /// Records a decoded engagement report.
    pub fn apply_engage_report(&mut self, report: Option<bool>)
        ensures
            *final(self) == with_engage_report(*old(self), report),
    {
        if let Some(e) = report {
            self.engaged = e;
        }
    }

    /// Records a decoded gear report.
    pub fn apply_gear_report(&mut self, report: Option<u8>)
        ensures
            *final(self) == with_gear_report(*old(self), report),
    {
        if let Some(g) = report {
            self.gear = g;
        }
    }

    /// Records a decoded velocity report, in mm/s.
    pub fn apply_velocity_report(&mut self, report: Option<i32>)
        ensures
            *final(self) == with_velocity_report(*old(self), report),
    {
        if let Some(v) = report {
            self.reported_velocity = v;
        }
    }

    /// Decodes a gate-mode message and records it; a malformed one is dropped.
    pub fn on_gate_mode_message(&mut self, payload: &[u8])
        ensures
            *final(self) == with_gate_mode_report(*old(self), gate_mode_of(payload@)),
    {
        let report = decode_gate_mode(payload);
        self.apply_gate_mode_report(report);
    }

    /// Decodes an engagement message and records it; a malformed one is dropped.
    pub fn on_engage_message(&mut self, payload: &[u8])
        ensures
            *final(self) == with_engage_report(*old(self), engage_of(payload@)),
    {
        let report = decode_engage(payload);
        self.apply_engage_report(report);
    }

    /// Decodes a gear message and records it; a malformed one is dropped.
    pub fn on_gear_message(&mut self, payload: &[u8])
        ensures
            *final(self) == with_gear_report(*old(self), gear_of(payload@)),
    {
        let report = decode_gear(payload);
        self.apply_gear_report(report);
    }

    /// Renders engagement, gate mode and gear as one line of text.
    pub fn get_status(&self) -> (r: String)
        ensures
            r@ == status_text(*self),
    {
        let mut s = String::from_str("Engage:");
        s.append(engage_str(self.engaged));
        s.append(" Gate Mode:");
        s.append(gate_mode_str(self.gate_mode));
        s.append(" Gear:");
        s.append(gear_str(self.gear));
        s
    }
}

} // verus!
