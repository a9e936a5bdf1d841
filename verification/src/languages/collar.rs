//! The training-collar protocol.
//!
//! Each packet carries 32 data bits, most-significant bit first:
//! a 16-bit collar id, a 4-bit channel code, a 4-bit action code and an
//! 8-bit intensity. An 8-bit checksum follows: the four data bytes, each
//! read as an unsigned big-endian integer, summed and reduced modulo 256.
//! Three zero bits close the packet; they widen the trailing low guard
//! interval and are not checksummed. 43 bits in all.

use crate::bits::{
    bits_of_int, int_of_bits, lemma_bits_of_int_len, lemma_bits_of_int_split,
    lemma_int_of_bits_append, lemma_int_of_bits_of_int, push_bits,
};
use crate::pulse::{duration_to_ticks, encode_pulses, spec_ticks, spec_waveform, PulsePair,
    Timing, MAX_TICKS};
use vstd::arithmetic::power2::pow2;
use vstd::prelude::*;

verus! {

/// Channels one can send a message on.
#[derive(Debug, Clone, Copy, PartialEq, Eq, Structural)]
pub enum Channel {
    /// Channel 0, wire code 0000.
    Zero,
    /// Channel 1, wire code 0001.
    One,
    /// Channel 2, wire code 0010.
    Two,
}

impl Channel {
    /// The 4-bit wire code of this channel.
    pub open spec fn spec_code(self) -> int {
        match self {
            Channel::Zero => 0,
            Channel::One => 1,
            Channel::Two => 2,
        }
    }

    /// Converts a numeric channel value to a `Channel`. Only the values
    /// 0, 1 and 2 denote channels.
    pub fn from(value: u8) -> (r: Channel)
        requires
            value <= 2,
        ensures
            r.spec_code() == value,
    {
        match value {
            0 => Channel::Zero,
            1 => Channel::One,
            _ => Channel::Two,
        }
    }

    /// The 4 bits of this channel's wire code, most-significant bit first.
    pub fn bits(self) -> (r: Vec<bool>)
        ensures
            r@ == bits_of_int(self.spec_code(), 4),
            r@.len() == 4,
    {
        let code: u64 = match self {
            Channel::Zero => 0,
            Channel::One => 1,
            Channel::Two => 2,
        };
        let mut bits: Vec<bool> = Vec::new();
        push_bits(&mut bits, code, 4);
        bits
    }
}

/// Actions one can perform on a collar.
#[derive(Debug, Clone, Copy, PartialEq, Eq, Structural)]
pub enum Action {
    /// Shock the collar, wire code 0001.
    Shock,
    /// Vibrate the collar, wire code 0010.
    Vibrate,
    /// Beep the collar, wire code 0011.
    Beep,
    /// Toggle the light on the collar, wire code 0100.
    Light,
}

impl Action {
    /// The 4-bit wire code of this action.
    pub open spec fn spec_code(self) -> int {
        match self {
            Action::Shock => 1,
            Action::Vibrate => 2,
            Action::Beep => 3,
            Action::Light => 4,
        }
    }

    /// Converts a numeric action value to an `Action`. Only the values
    /// 1 through 4 denote actions.
    pub fn from(value: u8) -> (r: Action)
        requires
            1 <= value <= 4,
        ensures
            r.spec_code() == value,
    {
        match value {
            1 => Action::Shock,
            2 => Action::Vibrate,
            3 => Action::Beep,
            _ => Action::Light,
        }
    }

    /// The 4 bits of this action's wire code, most-significant bit first.
    pub fn bits(self) -> (r: Vec<bool>)
        ensures
            r@ == bits_of_int(self.spec_code(), 4),
            r@.len() == 4,
    {
        let code: u64 = match self {
            Action::Shock => 1,
            Action::Vibrate => 2,
            Action::Beep => 3,
            Action::Light => 4,
        };
        let mut bits: Vec<bool> = Vec::new();
        push_bits(&mut bits, code, 4);
        bits
    }
}

/// The checksum of the 32 data bits: each of the four 8-bit groups read as
/// an unsigned big-endian integer, summed and reduced modulo 256.
pub open spec fn spec_checksum(data: Seq<bool>) -> int {
    (int_of_bits(data.subrange(0, 8)) + int_of_bits(data.subrange(8, 16)) + int_of_bits(
        data.subrange(16, 24),
    ) + int_of_bits(data.subrange(24, 32))) % 256
}

/// Packet to send to the collar: a 16-bit id, a channel, an action and an
/// intensity, checksummed and closed by three zero guard bits.
#[derive(Debug, Clone, Copy, PartialEq, Eq, Structural)]
pub struct Packet {
    /// ID of the collar.
    pub id: u16,
    /// Channel to send the message on.
    pub channel: Channel,
    /// Action to perform.
    pub action: Action,
    /// Intensity of the action (0-99).
    pub intensity: u8,
}

impl Packet {
    /// The 32 data bits of this packet: id, channel code, action code and
    /// intensity, most-significant bit first.
    pub open spec fn spec_data_bits(self) -> Seq<bool> {
        bits_of_int(self.id as int, 16) + bits_of_int(self.channel.spec_code(), 4) + bits_of_int(
            self.action.spec_code(),
            4,
        ) + bits_of_int(self.intensity as int, 8)
    }

    /// The full 43-bit wire image: the 32 data bits, their 8-bit checksum,
    /// and three zero guard bits.
    pub open spec fn spec_bits(self) -> Seq<bool> {
        self.spec_data_bits() + bits_of_int(spec_checksum(self.spec_data_bits()), 8) + seq![
            false,
            false,
            false,
        ]
    }

    /// Renders this packet as its exact 43-bit wire image: 32 data bits,
    /// 8 checksum bits, 3 zero guard bits.
    pub fn to_bits(&self) -> (r: Vec<bool>)
        ensures
            r@ == self.spec_bits(),
            r@.len() == 43,
    {
        let mut bits: Vec<bool> = Vec::new();
        push_bits(&mut bits, self.id as u64, 16);
        let channel_code: u8 = match self.channel {
            Channel::Zero => 0,
            Channel::One => 1,
            Channel::Two => 2,
        };
        push_bits(&mut bits, channel_code as u64, 4);
        let action_code: u8 = match self.action {
            Action::Shock => 1,
            Action::Vibrate => 2,
            Action::Beep => 3,
            Action::Light => 4,
        };
        push_bits(&mut bits, action_code as u64, 4);
        push_bits(&mut bits, self.intensity as u64, 8);
        proof {
            lemma_data_bits_concat(*self);
            assert(bits@ =~= self.spec_data_bits());
        }
        let checksum: u16 = (self.id / 256 + self.id % 256 + channel_code as u16 * 16
            + action_code as u16 + self.intensity as u16) % 256;
        proof {
            lemma_checksum_from_fields(*self);
        }
        push_bits(&mut bits, checksum as u64, 8);
        bits.push(false);
        bits.push(false);
        bits.push(false);
        proof {
            lemma_bits_len(*self);
            assert(bits@ =~= self.spec_bits());
        }
        bits
    }
}

/// The concatenation of the four field renderings, with the lengths of
/// each prefix pinned down.
proof fn lemma_data_bits_concat(p: Packet)
    ensures
        p.spec_data_bits().len() == 32,
        p.spec_data_bits() =~= bits_of_int(p.id as int, 16) + bits_of_int(
            p.channel.spec_code(),
            4,
        ) + bits_of_int(p.action.spec_code(), 4) + bits_of_int(p.intensity as int, 8),
        bits_of_int(p.id as int, 16).len() == 16,
        bits_of_int(p.channel.spec_code(), 4).len() == 4,
        bits_of_int(p.action.spec_code(), 4).len() == 4,
        bits_of_int(p.intensity as int, 8).len() == 8,
{
    lemma_bits_of_int_len(p.id as int, 16);
    lemma_bits_of_int_len(p.channel.spec_code(), 4);
    lemma_bits_of_int_len(p.action.spec_code(), 4);
    lemma_bits_of_int_len(p.intensity as int, 8);
}

/// The full wire image is 43 bits long.
pub proof fn lemma_bits_len(p: Packet)
    ensures
        p.spec_data_bits().len() == 32,
        p.spec_bits().len() == 43,
{
    lemma_data_bits_concat(p);
    lemma_bits_of_int_len(spec_checksum(p.spec_data_bits()), 8);
}

/// The checksum over the data bits equals the arithmetic sum of the four
/// field bytes, reduced modulo 256: id high byte + id low byte +
/// (channel code * 16 + action code) + intensity.
pub proof fn lemma_checksum_from_fields(p: Packet)
    ensures
        spec_checksum(p.spec_data_bits()) == (p.id as int / 256 + p.id as int % 256
            + (p.channel.spec_code() * 16 + p.action.spec_code()) + p.intensity as int) % 256,
{
    lemma_data_bits_concat(p);
    let data = p.spec_data_bits();
    let id_bits = bits_of_int(p.id as int, 16);
    let ch_bits = bits_of_int(p.channel.spec_code(), 4);
    let ac_bits = bits_of_int(p.action.spec_code(), 4);
    let it_bits = bits_of_int(p.intensity as int, 8);
    lemma_bits_of_int_len(p.id as int / 256, 8);
    lemma_bits_of_int_len(p.id as int, 8);
    assert(pow2(8) == 256 && pow2(4) == 16) by {
        vstd::arithmetic::power2::lemma2_to64();
    }

    // The id field splits into its high and low byte.
    lemma_bits_of_int_split(p.id as int, 8, 8);
    assert(id_bits =~= bits_of_int(p.id as int / 256, 8) + bits_of_int(p.id as int, 8));
    assert(data.subrange(0, 8) =~= bits_of_int(p.id as int / 256, 8));
    assert(data.subrange(8, 16) =~= bits_of_int(p.id as int, 8));
    lemma_int_of_bits_of_int(p.id as int / 256, 8);
    lemma_int_of_bits_of_int(p.id as int, 8);
    vstd::arithmetic::div_mod::lemma_small_mod((p.id / 256) as nat, 256);
    assert(int_of_bits(data.subrange(0, 8)) == p.id as int / 256);
    assert(int_of_bits(data.subrange(8, 16)) == p.id as int % 256);

    // The channel and action codes form the third byte.
    assert(data.subrange(16, 24) =~= ch_bits + ac_bits);
    lemma_int_of_bits_append(ch_bits, ac_bits);
    lemma_int_of_bits_of_int(p.channel.spec_code(), 4);
    lemma_int_of_bits_of_int(p.action.spec_code(), 4);
    vstd::arithmetic::div_mod::lemma_small_mod(p.channel.spec_code() as nat, 16);
    vstd::arithmetic::div_mod::lemma_small_mod(p.action.spec_code() as nat, 16);
    assert(int_of_bits(data.subrange(16, 24)) == p.channel.spec_code() * 16
        + p.action.spec_code());

    // The intensity is the fourth byte.
    assert(data.subrange(24, 32) =~= it_bits);
    lemma_int_of_bits_of_int(p.intensity as int, 8);
    vstd::arithmetic::div_mod::lemma_small_mod(p.intensity as nat, 256);
    assert(int_of_bits(data.subrange(24, 32)) == p.intensity as int);
}

/// Every collar packet encodes to exactly 43 bits, and the encoding is a
/// function of the packet's fields alone: equal packets have equal wire
/// images.
pub proof fn lemma_collar_bits_deterministic(p: Packet, q: Packet)
    ensures
        p.spec_bits().len() == 43,
        p == q ==> p.spec_bits() == q.spec_bits(),
{
    lemma_bits_len(p);
}

/// Pulse timing table used to encode collar packets.
pub struct Pulses {
    timing: Timing,
}

impl Pulses {
    /// The collar protocol's timing table at a given clock rate, in
    /// microseconds converted to ticks: sync 1400/800, zero 300/800,
    /// one 800/300.
    pub open spec fn spec_timing(ticks_hz: int) -> Timing {
        Timing {
            sync: PulsePair {
                high: spec_ticks(ticks_hz, 1400) as u16,
                low: spec_ticks(ticks_hz, 800) as u16,
            },
            zero: PulsePair {
                high: spec_ticks(ticks_hz, 300) as u16,
                low: spec_ticks(ticks_hz, 800) as u16,
            },
            one: PulsePair {
                high: spec_ticks(ticks_hz, 800) as u16,
                low: spec_ticks(ticks_hz, 300) as u16,
            },
        }
    }

    /// The timing table this encoder uses.
    pub closed spec fn timing(self) -> Timing {
        self.timing
    }

    /// Create a new set of pulses from the transmitter's counter clock
    /// rate. The longest protocol duration (1400 us) must fit the 15-bit
    /// tick field at that rate.
    pub fn new(ticks_hz: u32) -> (r: Pulses)
        requires
            spec_ticks(ticks_hz as int, 1400) <= MAX_TICKS,
        ensures
            r.timing() == Self::spec_timing(ticks_hz as int),
    {
        proof {
            lemma_collar_ticks_fit(ticks_hz as int);
        }
        Pulses {
            timing: Timing {
                sync: PulsePair {
                    high: duration_to_ticks(ticks_hz, 1400),
                    low: duration_to_ticks(ticks_hz, 800),
                },
                zero: PulsePair {
                    high: duration_to_ticks(ticks_hz, 300),
                    low: duration_to_ticks(ticks_hz, 800),
                },
                one: PulsePair {
                    high: duration_to_ticks(ticks_hz, 800),
                    low: duration_to_ticks(ticks_hz, 300),
                },
            },
        }
    }

    /// Encode a vector of bits into a waveform: one sync pair, then one
    /// pair per bit.
    pub fn encode(&self, bits: &Vec<bool>) -> (r: Vec<PulsePair>)
        ensures
            r@ == spec_waveform(self.timing(), bits@),
            r@.len() == 1 + bits@.len(),
    {
        encode_pulses(&self.timing, bits)
    }
}

/// If the longest collar duration fits the tick field at a clock rate, so
/// do the shorter ones.
proof fn lemma_collar_ticks_fit(ticks_hz: int)
    requires
        ticks_hz >= 0,
        spec_ticks(ticks_hz, 1400) <= MAX_TICKS,
    ensures
        spec_ticks(ticks_hz, 300) <= MAX_TICKS,
        spec_ticks(ticks_hz, 800) <= MAX_TICKS,
{
    vstd::arithmetic::mul::lemma_mul_inequality(300, 1400, ticks_hz);
    vstd::arithmetic::mul::lemma_mul_inequality(800, 1400, ticks_hz);
    vstd::arithmetic::div_mod::lemma_div_is_ordered(300 * ticks_hz, 1400 * ticks_hz, 1_000_000);
    vstd::arithmetic::div_mod::lemma_div_is_ordered(800 * ticks_hz, 1400 * ticks_hz, 1_000_000);
}

} // verus!

