//! Pulse timing: durations, tick conversion, and the shared bit-to-pulse
//! encoder.
//!
//! A waveform is an ordered sequence of (high, low) interval pairs measured
//! in hardware clock ticks. Every protocol emits one sync pair followed by
//! one pair per bit, chosen from its fixed timing table.

use vstd::prelude::*;

verus! {

/// The largest tick count the transmitter accepts: an interval field is 15
/// bits wide.
pub const MAX_TICKS: u16 = 32767;

/// One (high, low) interval pair of a transmitted waveform, in hardware
/// clock ticks.
#[derive(Clone, Copy, Debug, PartialEq, Eq, Structural)]
pub struct PulsePair {
    /// Duration of the high level, in clock ticks.
    pub high: u16,
    /// Duration of the low level, in clock ticks.
    pub low: u16,
}

/// A protocol's fixed timing table: the sync pair and the pairs encoding a
/// zero bit and a one bit.
#[derive(Clone, Copy, Debug, PartialEq, Eq, Structural)]
pub struct Timing {
    /// Leading pair marking the start of a packet.
    pub sync: PulsePair,
    /// Pair encoding a zero bit.
    pub zero: PulsePair,
    /// Pair encoding a one bit.
    pub one: PulsePair,
}

/// A duration of `micros` microseconds measured in ticks of a `ticks_hz`
/// clock, truncated toward zero. This fixed-point truncation is the one
/// conversion rule used everywhere a duration is turned into ticks.
pub open spec fn spec_ticks(ticks_hz: int, micros: int) -> int {
    (micros * ticks_hz) / 1_000_000
}

/// Converts a duration in microseconds to hardware clock ticks, truncating
/// toward zero. The result must fit the transmitter's 15-bit interval
/// field; a duration too long for the clock rate has no representation.
pub fn duration_to_ticks(ticks_hz: u32, micros: u32) -> (r: u16)
    requires
        spec_ticks(ticks_hz as int, micros as int) <= MAX_TICKS,
    ensures
        r == spec_ticks(ticks_hz as int, micros as int),
{
    ((micros as u64 * ticks_hz as u64) / 1_000_000) as u16
}

/// The waveform that a timing table assigns to a bit sequence: the sync
/// pair, then for each bit in order the pair its value selects.
pub open spec fn spec_waveform(t: Timing, bits: Seq<bool>) -> Seq<PulsePair> {
    seq![t.sync] + bits.map_values(
        |b: bool|
            if b {
                t.one
            } else {
                t.zero
            },
    )
}

/// Every pair of an encoded waveform comes from the timing table: the
/// first pair is the sync pair, and each following pair is the zero pair
/// or the one pair, as its bit selects. No other durations ever appear.
pub proof fn lemma_waveform_pairs(t: Timing, bits: Seq<bool>)
    ensures
        spec_waveform(t, bits).len() == 1 + bits.len(),
        spec_waveform(t, bits)[0] == t.sync,
        forall|i: int|
            0 <= i < bits.len() ==> spec_waveform(t, bits)[i + 1] == (if bits[i] {
                t.one
            } else {
                t.zero
            }),
        forall|i: int|
            0 <= i < spec_waveform(t, bits).len() ==> (spec_waveform(t, bits)[i] == t.sync
                || spec_waveform(t, bits)[i] == t.zero || spec_waveform(t, bits)[i] == t.one),
{
    let w = spec_waveform(t, bits);
    assert forall|i: int| 0 <= i < w.len() implies (w[i] == t.sync || w[i] == t.zero || w[i]
        == t.one) by {
        if i > 0 {
            assert(w[i] == (if bits[i - 1] {
                t.one
            } else {
                t.zero
            }));
        }
    }
}

/// Encodes a bit sequence into a waveform: one sync pair, then one pair
/// per bit in order.
pub fn encode_pulses(t: &Timing, bits: &Vec<bool>) -> (r: Vec<PulsePair>)
    ensures
        r@ == spec_waveform(*t, bits@),
        r@.len() == 1 + bits@.len(),
{
    let mut signal: Vec<PulsePair> = Vec::with_capacity(bits.len());
    signal.push(t.sync);
    let mut i: usize = 0;
    while i < bits.len()
        invariant
            i <= bits@.len(),
            signal@.len() == 1 + i,
            signal@[0] == t.sync,
            forall|j: int|
                0 <= j < i ==> signal@[j + 1] == (if bits@[j] {
                    t.one
                } else {
                    t.zero
                }),
        decreases bits@.len() - i,
    {
        if bits[i] {
            signal.push(t.one);
        } else {
            signal.push(t.zero);
        }
        i = i + 1;
    }
    proof {
        assert(signal@ =~= spec_waveform(*t, bits@));
    }
    signal
}

} // verus!
