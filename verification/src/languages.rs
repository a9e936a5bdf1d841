//! The two RF protocol families and the holder that crafts their signals.

pub mod collar;
pub mod socket;

pub use collar::Action as CollarAction;
pub use socket::Action as SocketAction;

use crate::pulse::{spec_ticks, spec_waveform, PulsePair, MAX_TICKS};
use vstd::prelude::*;

verus! {

/// Clamps a collar duration in milliseconds to the protocol's valid range,
/// 300 to 10000.
pub open spec fn spec_clamp_duration(duration: int) -> int {
    if duration < 300 {
        300
    } else if duration > 10000 {
        10000
    } else {
        duration
    }
}

/// The collar packet that a raw command crafts: channel clamped to 2,
/// intensity clamped to 99.
pub open spec fn spec_collar_packet(id: u16, channel: u8, action: CollarAction, intensity: u8)
    -> collar::Packet {
    collar::Packet {
        id,
        channel: if channel >= 2 {
            collar::Channel::Two
        } else if channel == 1 {
            collar::Channel::One
        } else {
            collar::Channel::Zero
        },
        action,
        intensity: if intensity > 99 {
            99
        } else {
            intensity
        },
    }
}

/// How many times a collar signal of a given requested duration is
/// repeated: the clamped duration divided by the 50 ms length of one
/// transmission, rounded to the nearest whole count (halves up). The
/// clamp floor of 300 keeps the count at least 6, so it is never zero.
pub open spec fn spec_repeat_count(duration: int) -> int {
    (spec_clamp_duration(duration) + 25) / 50
}

/// The clamps a crafted collar packet applies. Channel inputs 0, 1 and 2
/// keep their codes; anything above 2 clamps to code 2. Intensity above
/// 99 clamps to 99. Id and action pass through unchanged.
pub proof fn lemma_collar_clamp(id: u16, channel: u8, action: CollarAction, intensity: u8)
    ensures
        spec_collar_packet(id, channel, action, intensity).channel.spec_code() == (if channel > 2 {
            2int
        } else {
            channel as int
        }),
        spec_collar_packet(id, channel, action, intensity).intensity == (if intensity > 99 {
            99u8
        } else {
            intensity
        }),
        spec_collar_packet(id, channel, action, intensity).id == id,
        spec_collar_packet(id, channel, action, intensity).action == action,
{
}

/// The duration clamp: values below 300 rise to 300, values above 10000
/// fall to 10000, values in range pass through.
pub proof fn lemma_duration_clamp(duration: u16)
    ensures
        300 <= spec_clamp_duration(duration as int) <= 10000,
        duration < 300 ==> spec_clamp_duration(duration as int) == 300,
        duration > 10000 ==> spec_clamp_duration(duration as int) == 10000,
        300 <= duration <= 10000 ==> spec_clamp_duration(duration as int) == duration,
{
}

/// Struct holding pulses for all languages.
pub struct LanguageHolder {
    /// Remote socket pulses.
    socket: socket::Pulses,
    /// Shock collar pulses.
    collar: collar::Pulses,
}

impl LanguageHolder {
    /// The socket timing table this holder encodes with.
    pub closed spec fn socket_timing(self) -> crate::pulse::Timing {
        self.socket.timing()
    }

    /// The collar timing table this holder encodes with.
    pub closed spec fn collar_timing(self) -> crate::pulse::Timing {
        self.collar.timing()
    }

    /// Create a new `LanguageHolder` from the transmitter's counter clock
    /// rate. The longest duration of either protocol (2280 us) must fit
    /// the 15-bit tick field at that rate.
    pub fn new(ticks_hz: u32) -> (r: LanguageHolder)
        requires
            spec_ticks(ticks_hz as int, 2280) <= MAX_TICKS,
        ensures
            r.socket_timing() == socket::Pulses::spec_timing(ticks_hz as int),
            r.collar_timing() == collar::Pulses::spec_timing(ticks_hz as int),
    {
        proof {
            vstd::arithmetic::mul::lemma_mul_inequality(1400, 2280, ticks_hz as int);
            vstd::arithmetic::div_mod::lemma_div_is_ordered(
                1400 * ticks_hz as int,
                2280 * ticks_hz as int,
                1_000_000,
            );
        }
        LanguageHolder { socket: socket::Pulses::new(ticks_hz), collar: collar::Pulses::new(
            ticks_hz,
        ) }
    }

    /// Craft a socket signal: the waveform of the packet's 24-bit wire
    /// image under the socket timing table.
    pub fn craft_socket(&self, id: u8, action: SocketAction) -> (r: Vec<PulsePair>)
        ensures
            r@ == spec_waveform(
                self.socket_timing(),
                (socket::Packet { id, action }).spec_bits(),
            ),
            r@.len() == 25,
    {
        let packet = socket::Packet { id, action };
        let bits: Vec<bool> = packet.to_bits();
        self.socket.encode(&bits)
    }

    /// Craft a collar signal with a given duration in milliseconds.
    /// Channel, intensity and duration are clamped, never rejected. The
    /// waveform encodes the clamped packet's 43-bit wire image under the
    /// collar timing table; alongside it comes the number of times the
    /// signal is to be repeated: the clamped duration divided by the
    /// 50 ms length of one transmission, rounded to the nearest count.
    pub fn craft_collar(
        &self,
        id: u16,
        channel: u8,
        action: CollarAction,
        intensity: u8,
        duration: u16,
    ) -> (r: (Vec<PulsePair>, u16))
        ensures
            r.0@ == spec_waveform(
                self.collar_timing(),
                spec_collar_packet(id, channel, action, intensity).spec_bits(),
            ),
            r.0@.len() == 44,
            r.1 == spec_repeat_count(duration as int),
            6 <= r.1 <= 200,
    {
        // validate inputs
        let clamped_channel: u8 = if channel > 2 {
            2
        } else {
            channel
        };
        let clamped_intensity: u8 = if intensity > 99 {
            99
        } else {
            intensity
        };
        let clamped_duration: u16 = if duration < 300 {
            300
        } else if duration > 10000 {
            10000
        } else {
            duration
        };

        // create packet
        let packet = collar::Packet {
            id,
            channel: collar::Channel::from(clamped_channel),
            action,
            intensity: clamped_intensity,
        };
        proof {
            assert(packet == spec_collar_packet(id, channel, action, intensity));
        }

        // encode packet
        let bits: Vec<bool> = packet.to_bits();
        let signal = self.collar.encode(&bits);

        (signal, (clamped_duration + 25) / 50)
    }
}

} // verus!
