use vstd::prelude::*;
use crate::state::{ControlState, GATE_MODE_AUTO, GATE_MODE_EXTERNAL};
use crate::topics::TopicNames;
use crate::wire::{
    bool_frame, encode_bool, encode_engage_request, encode_gate_mode, encode_gear_command,
    engage_request_frame, gate_mode_frame, gear_command_frame, i64_bits, le_bytes,
    lemma_le_bytes_len,
};

verus! {

/// Relies on rand::random: a value drawn from the thread-local generator; nothing
/// is known of it.
pub assume_specification<T>[ rand::random::<T> ]() -> (r: T)
    where
        rand::distributions::Standard: rand::distributions::Distribution<T>,
;

/// Gate mode requested by a toggle: external from auto, auto from any other mode.
pub open spec fn toggled(mode: u8) -> u8 {
    if mode == GATE_MODE_AUTO {
        GATE_MODE_EXTERNAL
    } else {
        GATE_MODE_AUTO
    }
}

/// The sequence number after `n`, wrapping to zero after the largest.
pub open spec fn next_sequence(n: u64) -> u64 {
    if n == u64::MAX {
        0
    } else {
        (n + 1) as u64
    }
}

/// The correlation tag of a request, as a little-endian frame carries it.
pub open spec fn tag_le(guid: i64, seq: u64) -> Seq<u8> {
    le_bytes(i64_bits(guid), 8) + le_bytes(seq as nat, 8)
}

/// The correlation tag of a request, as a big-endian frame carries it.
pub open spec fn tag_be(guid: i64, seq: u64) -> Seq<u8> {
    le_bytes(i64_bits(guid), 8).reverse() + le_bytes(seq as nat, 8).reverse()
}

/// Whether a reply opens with the correlation tag of a request: the header
/// names the byte order, and the originator id and sequence number follow it.
pub open spec fn is_reply_for(guid: i64, seq: u64, p: Seq<u8>) -> bool {
    &&& p.len() >= 20
    &&& {
        ||| (p[1] == 1 || p[1] == 3) && p.subrange(4, 20) == tag_le(guid, seq)
        ||| (p[1] == 0 || p[1] == 2) && p.subrange(4, 20) == tag_be(guid, seq)
    }
}

/// An engagement request to send to the remote authority.
pub struct EngageRequest {
    /// A direct query on the service that waits for its reply, rather than a
    /// publication on the request channel matched by tag on the reply channel.
    pub synchronous: bool,
    /// The sequence number of the correlation tag; unused by a direct query.
    pub sequence_number: u64,
    /// The encoded request.
    pub payload: Vec<u8>,
}

/// What a gate-mode toggle asks the bridge to send.
pub struct GateToggle {
    /// Whether the newly requested mode is external.
    pub external: bool,
    /// The encoded gate-mode command to publish.
    pub gate_mode_message: Vec<u8>,
    /// The engagement request that follows a switch to external mode.
    pub engage: Option<EngageRequest>,
}

/// The foreground side of the bridge: channel names and the correlation data
/// of engagement requests.
pub struct ManualController {
    /// Whether the bridge forwards ROS 2 names unchanged and answers direct queries.
    pub ros2: bool,
    /// The channel names.
    pub topics: TopicNames,
    /// Originator id of the engagement requests, drawn at random once.
    pub guid: i64,
    /// Sequence number of the next published engagement request.
    pub sequence_number: u64,
}

impl ManualController {
    /// A controller for a mode and a caller-supplied channel prefix, with a fresh
    /// random originator id and the first sequence number.
    pub fn new(ros2: bool, prefix: String) -> (r: Self)
        ensures
            r.ros2 == ros2,
            r.topics.names_for(ros2, prefix@),
            r.sequence_number == 0,
    {
        let topics = TopicNames::new(ros2, prefix.as_str());
        ManualController { ros2, topics, guid: rand::random::<i64>(), sequence_number: 0 }
    }

    /// Switches the requested gate mode: from auto to external, with an
    /// engagement request, and from any other mode back to auto. The new mode is
    /// recorded at once, whatever the remote authority later answers.
    pub fn toggle_gate_mode(&mut self, state: &mut ControlState) -> (r: GateToggle)
        ensures
            *final(state) == (ControlState {
                gate_mode: toggled(old(state).gate_mode),
                ..*old(state)
            }),
            r.external == (old(state).gate_mode == GATE_MODE_AUTO),
            r.gate_mode_message@ == gate_mode_frame(toggled(old(state).gate_mode)),
            r.engage is Some <==> r.external,
            final(self).ros2 == old(self).ros2,
            final(self).topics == old(self).topics,
            final(self).guid == old(self).guid,
            (!r.external || old(self).ros2) ==> final(self).sequence_number
                == old(self).sequence_number,
            (r.external && !old(self).ros2) ==> final(self).sequence_number == next_sequence(
                old(self).sequence_number,
            ),
            r.engage matches Some(e) ==> {
                &&& e.synchronous == old(self).ros2
                &&& old(self).ros2 ==> e.payload@ == bool_frame(true)
                &&& !old(self).ros2 ==> e.sequence_number == old(self).sequence_number
                &&& !old(self).ros2 ==> e.payload@ == engage_request_frame(
                    old(self).guid,
                    old(self).sequence_number,
                    true,
                )
            },
    {
        if state.gate_mode == GATE_MODE_AUTO {
            state.gate_mode = GATE_MODE_EXTERNAL;
            let gate_mode_message = encode_gate_mode(GATE_MODE_EXTERNAL);
            let engage = self.engage_request();
            GateToggle { external: true, gate_mode_message, engage: Some(engage) }
        } else {
            state.gate_mode = GATE_MODE_AUTO;
            let gate_mode_message = encode_gate_mode(GATE_MODE_AUTO);
            GateToggle { external: false, gate_mode_message, engage: None }
        }
    }

    /// The request that asks the remote authority to engage, taking a fresh
    /// sequence number where the request is published.
    fn engage_request(&mut self) -> (e: EngageRequest)
        ensures
            final(self).ros2 == old(self).ros2,
            final(self).topics == old(self).topics,
            final(self).guid == old(self).guid,
            e.synchronous == old(self).ros2,
            old(self).ros2 ==> final(self).sequence_number == old(self).sequence_number,
            old(self).ros2 ==> e.payload@ == bool_frame(true),
            !old(self).ros2 ==> final(self).sequence_number == next_sequence(
                old(self).sequence_number,
            ),
            !old(self).ros2 ==> e.sequence_number == old(self).sequence_number,
            !old(self).ros2 ==> e.payload@ == engage_request_frame(
                old(self).guid,
                old(self).sequence_number,
                true,
            ),
    {
        if self.ros2 {
            EngageRequest {
                synchronous: true,
                sequence_number: self.sequence_number,
                payload: encode_bool(true),
            }
        } else {
            let seq = self.sequence_number;
            self.sequence_number = if seq == u64::MAX {
                0
            } else {
                seq + 1
            };
            EngageRequest {
                synchronous: false,
                sequence_number: seq,
                payload: encode_engage_request(self.guid, seq, true),
            }
        }
    }

    /// Whether a reply on the engagement reply channel answers this
    /// controller's request with the given sequence number.
    pub fn is_reply_to(&self, sequence_number: u64, reply: &[u8]) -> (r: bool)
        ensures
            r == is_reply_for(self.guid, sequence_number, reply@),
    {
        if reply.len() < 20 {
            return false;
        }
        let little = reply[1] == 1 || reply[1] == 3;
        let big = reply[1] == 0 || reply[1] == 2;
        if !little && !big {
            return false;
        }
        let expected = encode_engage_request(self.guid, sequence_number, true);
        let ghost g = le_bytes(i64_bits(self.guid), 8);
        let ghost sq = le_bytes(sequence_number as nat, 8);
        let ghost tag = if little {
            tag_le(self.guid, sequence_number)
        } else {
            tag_be(self.guid, sequence_number)
        };
        proof {
            lemma_le_bytes_len(i64_bits(self.guid), 8);
            lemma_le_bytes_len(sequence_number as nat, 8);
            assert(expected@.len() == 21);
            assert forall|k: int| 0 <= k < 16 implies #[trigger] tag[k] == expected@[if little {
                4 + k
            } else if k < 8 {
                11 - k
            } else {
                27 - k
            }] by {
                if k < 8 {
                    assert(expected@[4 + k] == g[k]);
                    assert(expected@[11 - k] == g[7 - k]);
                } else {
                    assert(expected@[4 + k] == sq[k - 8]);
                    assert(expected@[27 - k] == sq[15 - k]);
                }
            }
        }
        let mut i: usize = 0;
        while i < 16
            invariant
                0 <= i <= 16,
                reply@.len() >= 20,
                expected@.len() == 21,
                tag.len() == 16,
                little == (reply@[1] == 1 || reply@[1] == 3),
                little || reply@[1] == 0 || reply@[1] == 2,
                tag == if little {
                    tag_le(self.guid, sequence_number)
                } else {
                    tag_be(self.guid, sequence_number)
                },
                forall|k: int| 0 <= k < 16 ==> #[trigger] tag[k] == expected@[if little {
                    4 + k
                } else if k < 8 {
                    11 - k
                } else {
                    27 - k
                }],
                forall|k: int| 0 <= k < i ==> reply@[4 + k] == #[trigger] tag[k],
            decreases 16 - i,
        {
            let j: usize = if little {
                4 + i
            } else if i < 8 {
                11 - i
            } else {
                27 - i
            };
            if reply[4 + i] != expected[j] {
                proof {
                    assert(reply@.subrange(4, 20)[i as int] != tag[i as int]);
                }
                return false;
            }
            i += 1;
        }
        proof {
            assert(reply@.subrange(4, 20) =~= tag);
        }
        true
    }

    /// Records a requested gear and returns the gear command to publish at once.
    pub fn pub_gear_command(&self, state: &mut ControlState, command: u8) -> (r: Vec<u8>)
        ensures
            *final(state) == (ControlState { gear: command, ..*old(state) }),
            r@ == gear_command_frame(command),
    {
        state.gear = command;
        encode_gear_command(command)
    }
}

} // verus!
