//! The remote-socket protocol.
//!
//! Each packet is 24 bits long, most-significant bit first:
//! a fixed 20-bit action code followed by the low 4 bits of the socket id.
//! There is no checksum. Ids above 15 lose their high bits on the wire;
//! that truncation is part of the format and is preserved here.

use crate::bits::{bits_of_int, lemma_bits_of_int_len, lemma_bits_of_int_mod, push_bits};
use crate::pulse::{duration_to_ticks, encode_pulses, spec_ticks, spec_waveform, PulsePair,
    Timing, MAX_TICKS};
use vstd::prelude::*;

verus! {

/// Actions one can perform on a remote socket.
#[derive(Debug, Clone, Copy, PartialEq, Eq, Structural)]
pub enum Action {
    /// Enable the remote socket.
    Enable,
    /// Disable the remote socket.
    Disable,
}

impl Action {
    /// The fixed 20-bit wire code of this action.
    pub open spec fn spec_code(self) -> int {
        match self {
            Action::Enable => 0x01F87,
            Action::Disable => 0x023F1,
        }
    }

    /// Converts a numeric action value to an `Action`. Only the values 1
    /// (enable) and 2 (disable) denote actions.
    pub fn from(value: u8) -> (r: Action)
        requires
            1 <= value <= 2,
        ensures
            r == (if value == 1 {
                Action::Enable
            } else {
                Action::Disable
            }),
    {
        if value == 1 {
            Action::Enable
        } else {
            Action::Disable
        }
    }

    /// Converts an on/off state to the action that establishes it.
    pub fn from_state(value: bool) -> (r: Action)
        ensures
            r == (if value {
                Action::Enable
            } else {
                Action::Disable
            }),
    {
        if value {
            Action::Enable
        } else {
            Action::Disable
        }
    }

    /// The 20 bits of this action's wire code, most-significant bit first.
    pub fn bits(self) -> (r: Vec<bool>)
        ensures
            r@ == bits_of_int(self.spec_code(), 20),
            r@.len() == 20,
    {
        let mut bits: Vec<bool> = Vec::new();
        let code: u64 = match self {
            Action::Enable => 0x01F87,
            Action::Disable => 0x023F1,
        };
        push_bits(&mut bits, code, 20);
        bits
    }
}

/// Packet to send to a remote socket: a fixed action code followed by the
/// low 4 bits of the socket id.
#[derive(Debug, Clone, Copy, PartialEq, Eq, Structural)]
pub struct Packet {
    /// ID of the remote socket; only its low 4 bits reach the wire.
    pub id: u8,
    /// Action to perform.
    pub action: Action,
}

impl Packet {
    /// The 24-bit wire image of this packet: the 20-bit action code, then
    /// the low 4 bits of the id, most-significant bit first.
    pub open spec fn spec_bits(self) -> Seq<bool> {
        bits_of_int(self.action.spec_code(), 20) + bits_of_int(self.id as int, 4)
    }

    /// Renders this packet as its exact 24-bit wire image.
    pub fn to_bits(&self) -> (r: Vec<bool>)
        ensures
            r@ == self.spec_bits(),
            r@.len() == 24,
    {
        let mut bits = self.action.bits();
        push_bits(&mut bits, self.id as u64, 4);
        proof {
            lemma_bits_of_int_len(self.action.spec_code(), 20);
            lemma_bits_of_int_len(self.id as int, 4);
        }
        bits
    }
}

/// Every socket packet encodes to exactly 24 bits, and the encoding is a
/// function of the packet's fields alone: equal packets have equal wire
/// images.
pub proof fn lemma_socket_bits_deterministic(p: Packet, q: Packet)
    ensures
        p.spec_bits().len() == 24,
        p == q ==> p.spec_bits() == q.spec_bits(),
{
    lemma_bits_of_int_len(p.action.spec_code(), 20);
    lemma_bits_of_int_len(p.id as int, 4);
}

/// Ids above 15 lose their high bits on the wire — the id field is only
/// 4 bits wide. Two packets with the same action whose ids agree modulo
/// 16 have the same wire image; the truncation is the wire format's, not
/// a validation step.
pub proof fn lemma_socket_id_truncation(p: Packet, q: Packet)
    requires
        p.action == q.action,
        p.id % 16 == q.id % 16,
    ensures
        p.spec_bits() == q.spec_bits(),
{
    assert(vstd::arithmetic::power2::pow2(4) == 16) by {
        vstd::arithmetic::power2::lemma2_to64();
    }
    lemma_bits_of_int_mod(p.id as int, 4);
    lemma_bits_of_int_mod(q.id as int, 4);
}

/// Pulse timing table used to encode socket packets.
pub struct Pulses {
    timing: Timing,
}

impl Pulses {
    /// The socket protocol's timing table at a given clock rate, in
    /// microseconds converted to ticks: sync 380/2280, zero 380/1140,
    /// one 1140/380.
    pub open spec fn spec_timing(ticks_hz: int) -> Timing {
        Timing {
            sync: PulsePair {
                high: spec_ticks(ticks_hz, 380) as u16,
                low: spec_ticks(ticks_hz, 2280) as u16,
            },
            zero: PulsePair {
                high: spec_ticks(ticks_hz, 380) as u16,
                low: spec_ticks(ticks_hz, 1140) as u16,
            },
            one: PulsePair {
                high: spec_ticks(ticks_hz, 1140) as u16,
                low: spec_ticks(ticks_hz, 380) as u16,
            },
        }
    }

    /// The timing table this encoder uses.
    pub closed spec fn timing(self) -> Timing {
        self.timing
    }

    /// Create a new set of pulses from the transmitter's counter clock
    /// rate. The longest protocol duration (2280 us) must fit the 15-bit
    /// tick field at that rate.
    pub fn new(ticks_hz: u32) -> (r: Pulses)
        requires
            spec_ticks(ticks_hz as int, 2280) <= MAX_TICKS,
        ensures
            r.timing() == Self::spec_timing(ticks_hz as int),
    {
        proof {
            lemma_socket_ticks_fit(ticks_hz as int);
        }
        Pulses {
            timing: Timing {
                sync: PulsePair {
                    high: duration_to_ticks(ticks_hz, 380),
                    low: duration_to_ticks(ticks_hz, 2280),
                },
                zero: PulsePair {
                    high: duration_to_ticks(ticks_hz, 380),
                    low: duration_to_ticks(ticks_hz, 1140),
                },
                one: PulsePair {
                    high: duration_to_ticks(ticks_hz, 1140),
                    low: duration_to_ticks(ticks_hz, 380),
                },
            },
        }
    }

    /// Encode a vector of bits into a waveform: one sync pair, then one
    /// pair per bit.
    pub fn encode(&self, bits: &Vec<bool>) -> (r: Vec<PulsePair>)
        ensures
            r@ == spec_waveform(self.timing(), bits@),
            r@.len() == 1 + bits@.len(),
    {
        encode_pulses(&self.timing, bits)
    }
}

/// If the longest socket duration fits the tick field at a clock rate, so
/// do the shorter ones.
proof fn lemma_socket_ticks_fit(ticks_hz: int)
    requires
        ticks_hz >= 0,
        spec_ticks(ticks_hz, 2280) <= MAX_TICKS,
    ensures
        spec_ticks(ticks_hz, 380) <= MAX_TICKS,
        spec_ticks(ticks_hz, 1140) <= MAX_TICKS,
{
    vstd::arithmetic::mul::lemma_mul_inequality(380, 2280, ticks_hz);
    vstd::arithmetic::mul::lemma_mul_inequality(1140, 2280, ticks_hz);
    vstd::arithmetic::div_mod::lemma_div_is_ordered(380 * ticks_hz, 2280 * ticks_hz, 1_000_000);
    vstd::arithmetic::div_mod::lemma_div_is_ordered(1140 * ticks_hz, 2280 * ticks_hz, 1_000_000);
}

} // verus!
