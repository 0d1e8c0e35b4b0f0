//! Keyboard-driven manual control of an externally actuated vehicle.
//!
//! The library holds the decision logic of the bridge: bounded adjustment of
//! the commanded speed and steering, the mirror of the vehicle's reported
//! status, the derivation of the periodic control command, its gate-mode
//! handshake and the CDR framing of the messages exchanged with the vehicle.
//! Speeds are held in millimetres per second, accelerations in millimetres per
//! second squared and steering angles in units of 0.0001 rad.

pub mod controller;
pub mod emitter;
pub mod laws;
pub mod limits;
pub mod state;
pub mod status;
pub mod topics;
pub mod wire;
