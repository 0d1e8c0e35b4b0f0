use vstd::prelude::*;
use zenoh_ros_type::autoware_msgs::{Engage, GateMode, GearCommand, GetEngage};
use zenoh_ros_type::builtin_interfaces::Time;
use zenoh_ros_type::service::ServiceHeader;

verus! {

/// The four-byte header that opens a little-endian CDR frame.
pub open spec fn cdr_le_header() -> Seq<u8> {
    seq![0u8, 1u8, 0u8, 0u8]
}

/// The `n` low bytes of `x`, least significant first.
pub open spec fn le_bytes(x: nat, n: nat) -> Seq<u8>
    decreases n,
{
    if n == 0 {
        Seq::empty()
    } else {
        seq![(x % 256) as u8] + le_bytes(x / 256, (n - 1) as nat)
    }
}

pub proof fn lemma_le_bytes_len(x: nat, n: nat)
    ensures
        le_bytes(x, n).len() == n,
    decreases n,
{
    if n > 0 {
        lemma_le_bytes_len(x / 256, (n - 1) as nat);
    }
}

/// The two's-complement bit pattern of `x`, read as an unsigned number.
pub open spec fn i64_bits(x: i64) -> nat {
    if x < 0 {
        (x + 0x1_0000_0000_0000_0000) as nat
    } else {
        x as nat
    }
}

pub open spec fn bool_byte(b: bool) -> u8 {
    if b {
        1
    } else {
        0
    }
}

/// A gate-mode message: the mode code after the header.
pub open spec fn gate_mode_frame(mode: u8) -> Seq<u8> {
    cdr_le_header().push(mode)
}

/// A gear message with a zero time stamp: seconds and nanoseconds, then the code.
pub open spec fn gear_command_frame(command: u8) -> Seq<u8> {
    cdr_le_header() + le_bytes(0, 4) + le_bytes(0, 4) + seq![command]
}

/// An engagement request: originator id, sequence number, then the intent.
pub open spec fn engage_request_frame(guid: i64, seq: u64, enable: bool) -> Seq<u8> {
    cdr_le_header() + le_bytes(i64_bits(guid), 8) + le_bytes(seq as nat, 8) + seq![
        bool_byte(enable),
    ]
}

/// A bare boolean message.
pub open spec fn bool_frame(b: bool) -> Seq<u8> {
    cdr_le_header().push(bool_byte(b))
}

/// Whether `p` opens with a header of a known CDR encapsulation.
pub open spec fn has_cdr_header(p: Seq<u8>) -> bool {
    p.len() >= 4 && p[1] <= 3
}

/// The mode code that a gate-mode message carries, if it is well formed.
pub open spec fn gate_mode_of(p: Seq<u8>) -> Option<u8> {
    if has_cdr_header(p) && p.len() >= 5 {
        Some(p[4])
    } else {
        None
    }
}

/// The flag that a time-stamped engagement report carries, if it is well formed.
pub open spec fn engage_of(p: Seq<u8>) -> Option<bool> {
    if has_cdr_header(p) && p.len() >= 13 && p[12] <= 1 {
        Some(p[12] == 1)
    } else {
        None
    }
}

/// The gear code that a time-stamped gear message carries, if it is well formed.
pub open spec fn gear_of(p: Seq<u8>) -> Option<u8> {
    if has_cdr_header(p) && p.len() >= 13 {
        Some(p[12])
    } else {
        None
    }
}

/// Relies on cdr::serialize with the little-endian encapsulation: the header,
/// then the one-byte field of `GateMode`.
#[verifier::external_body]
pub(crate) fn encode_gate_mode(mode: u8) -> (r: Vec<u8>)
    ensures
        r@ == gate_mode_frame(mode),
{
    cdr::serialize::<_, _, cdr::CdrLe>(&GateMode { data: mode }, cdr::Infinite).unwrap()
}

/// Relies on cdr::serialize with the little-endian encapsulation: the header,
/// the two four-byte fields of the time stamp, then the gear code of `GearCommand`.
#[verifier::external_body]
pub(crate) fn encode_gear_command(command: u8) -> (r: Vec<u8>)
    ensures
        r@ == gear_command_frame(command),
{
    let message = GearCommand { ts: Time { sec: 0, nsec: 0 }, command };
    cdr::serialize::<_, _, cdr::CdrLe>(&message, cdr::Infinite).unwrap()
}

/// Relies on cdr::serialize with the little-endian encapsulation: the header,
/// the eight-byte id and sequence number of `ServiceHeader`, then the flag of
/// `Engage`.
#[verifier::external_body]
pub(crate) fn encode_engage_request(guid: i64, seq: u64, enable: bool) -> (r: Vec<u8>)
    ensures
        r@ == engage_request_frame(guid, seq, enable),
{
    let message = Engage { header: ServiceHeader { guid, seq }, enable };
    cdr::serialize::<_, _, cdr::CdrLe>(&message, cdr::Infinite).unwrap()
}

/// Relies on cdr::serialize with the little-endian encapsulation: the header,
/// then one byte, 1 for true and 0 for false.
#[verifier::external_body]
pub(crate) fn encode_bool(b: bool) -> (r: Vec<u8>)
    ensures
        r@ == bool_frame(b),
{
    cdr::serialize::<_, _, cdr::CdrLe>(&b, cdr::Infinite).unwrap()
}

/// Relies on cdr::deserialize_from for `GateMode`: it reads the four header
/// bytes, fails unless the second names a known encapsulation, then reads one byte.
#[verifier::external_body]
pub(crate) fn decode_gate_mode(payload: &[u8]) -> (r: Option<u8>)
    ensures
        r == gate_mode_of(payload@),
{
    match cdr::deserialize_from::<_, GateMode, _>(payload, cdr::Infinite) {
        Ok(message) => Some(message.data),
        Err(_) => None,
    }
}

/// Relies on cdr::deserialize_from for `GetEngage`: after the header, two
/// aligned four-byte fields of the time stamp, then one byte that must be 0 or 1.
#[verifier::external_body]
pub(crate) fn decode_engage(payload: &[u8]) -> (r: Option<bool>)
    ensures
        r == engage_of(payload@),
{
    match cdr::deserialize_from::<_, GetEngage, _>(payload, cdr::Infinite) {
        Ok(message) => Some(message.enable),
        Err(_) => None,
    }
}

/// Relies on cdr::deserialize_from for `GearCommand`: after the header, two
/// aligned four-byte fields of the time stamp, then the one-byte gear code.
#[verifier::external_body]
pub(crate) fn decode_gear(payload: &[u8]) -> (r: Option<u8>)
    ensures
        r == gear_of(payload@),
{
    match cdr::deserialize_from::<_, GearCommand, _>(payload, cdr::Infinite) {
        Ok(message) => Some(message.command),
        Err(_) => None,
    }
}

} // verus!
