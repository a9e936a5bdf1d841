//! Bit-level and pulse-level checks of the two protocol encoders.

use rf_remote::languages::collar;
use rf_remote::languages::socket;
use rf_remote::languages::LanguageHolder;
use rf_remote::pulse::{duration_to_ticks, PulsePair};

/// A 1 MHz counter clock: one tick per microsecond, so tick counts equal
/// the protocol's microsecond durations.
const HZ: u32 = 1_000_000;

fn bits(s: &str) -> Vec<bool> {
    s.chars().map(|c| c == '1').collect()
}

/// Reads the value of a big-endian bit slice.
fn value_of(slice: &[bool]) -> u32 {
    slice.iter().fold(0, |acc, &b| acc * 2 + b as u32)
}

#[test]
fn socket_enable_bits() {
    let packet = socket::Packet {
        id: 5,
        action: socket::Action::Enable,
    };
    let expected = bits("00000001111110000111.0101".replace('.', "").as_str());
    assert_eq!(packet.to_bits(), expected);
    assert_eq!(packet.to_bits().len(), 24);
}

#[test]
fn socket_disable_bits() {
    let packet = socket::Packet {
        id: 1,
        action: socket::Action::Disable,
    };
    let expected = bits("00000010001111110001.0001".replace('.', "").as_str());
    assert_eq!(packet.to_bits(), expected);
}

#[test]
fn socket_id_truncates_to_low_four_bits() {
    // Ids above 15 silently lose their high bits: 0xAF and 0x0F agree on
    // the wire.
    let wide = socket::Packet {
        id: 0xAF,
        action: socket::Action::Enable,
    };
    let narrow = socket::Packet {
        id: 0x0F,
        action: socket::Action::Enable,
    };
    assert_eq!(wide.to_bits(), narrow.to_bits());
    assert_eq!(&wide.to_bits()[20..], &[true, true, true, true]);
}

#[test]
fn socket_bits_deterministic() {
    let packet = socket::Packet {
        id: 9,
        action: socket::Action::Disable,
    };
    assert_eq!(packet.to_bits(), packet.to_bits());
}

#[test]
fn collar_example_bits() {
    // id 1234, channel 1, beep at intensity 50: id 0000010011010010,
    // channel 0001, action 0011, intensity 00110010, checksum
    // (4 + 210 + 19 + 50) % 256 = 27 = 00011011, then the three zero
    // guard bits.
    let packet = collar::Packet {
        id: 1234,
        channel: collar::Channel::One,
        action: collar::Action::Beep,
        intensity: 50,
    };
    let expected = bits(
        "0000010011010010.0001.0011.00110010.00011011.000"
            .replace('.', "")
            .as_str(),
    );
    assert_eq!(packet.to_bits(), expected);
    assert_eq!(packet.to_bits().len(), 43);
}

#[test]
fn collar_checksum_matches_byte_sum() {
    // The checksum byte always equals the sum of the four data bytes
    // modulo 256, read back from the emitted bits themselves.
    let packets = [
        collar::Packet {
            id: 0,
            channel: collar::Channel::Zero,
            action: collar::Action::Shock,
            intensity: 0,
        },
        collar::Packet {
            id: 65535,
            channel: collar::Channel::Two,
            action: collar::Action::Light,
            intensity: 99,
        },
        collar::Packet {
            id: 40000,
            channel: collar::Channel::One,
            action: collar::Action::Vibrate,
            intensity: 77,
        },
    ];
    for packet in packets {
        let out = packet.to_bits();
        let sum = value_of(&out[0..8]) + value_of(&out[8..16]) + value_of(&out[16..24])
            + value_of(&out[24..32]);
        assert_eq!(value_of(&out[32..40]), sum % 256);
        assert_eq!(&out[40..], &[false, false, false]);
    }
}

#[test]
fn channel_codes() {
    assert_eq!(collar::Channel::from(0).bits(), bits("0000"));
    assert_eq!(collar::Channel::from(1).bits(), bits("0001"));
    assert_eq!(collar::Channel::from(2).bits(), bits("0010"));
}

#[test]
fn action_codes() {
    assert_eq!(collar::Action::Shock.bits(), bits("0001"));
    assert_eq!(collar::Action::Vibrate.bits(), bits("0010"));
    assert_eq!(collar::Action::Beep.bits(), bits("0011"));
    assert_eq!(collar::Action::Light.bits(), bits("0100"));
    assert_eq!(socket::Action::Enable.bits(), bits("00000001111110000111"));
    assert_eq!(socket::Action::Disable.bits(), bits("00000010001111110001"));
}

#[test]
fn ticks_truncate_toward_zero() {
    // 3 us at 1.5 MHz is 4.5 ticks; the conversion truncates.
    assert_eq!(duration_to_ticks(1_500_000, 3), 4);
    // At 8 MHz the socket sync low of 2280 us is exactly 18240 ticks.
    assert_eq!(duration_to_ticks(8_000_000, 2280), 18240);
    assert_eq!(duration_to_ticks(HZ, 380), 380);
}

/// Decodes a waveform back into bits with a protocol timing table,
/// asserting on the way that only the table's three pairs appear and that
/// the first pair is the sync pair.
fn decode(waveform: &[PulsePair], sync: (u16, u16), zero: (u16, u16), one: (u16, u16)) -> Vec<bool> {
    assert_eq!((waveform[0].high, waveform[0].low), sync);
    waveform[1..]
        .iter()
        .map(|p| {
            if (p.high, p.low) == one {
                true
            } else {
                assert_eq!((p.high, p.low), zero);
                false
            }
        })
        .collect()
}

#[test]
fn socket_waveform_pairs() {
    let holder = LanguageHolder::new(HZ);
    let waveform = holder.craft_socket(5, socket::Action::Enable);
    assert_eq!(waveform.len(), 1 + 24);
    let decoded = decode(&waveform, (380, 2280), (380, 1140), (1140, 380));
    let packet = socket::Packet {
        id: 5,
        action: socket::Action::Enable,
    };
    assert_eq!(decoded, packet.to_bits());
}

#[test]
fn collar_waveform_pairs() {
    let holder = LanguageHolder::new(HZ);
    let (waveform, _) = holder.craft_collar(1234, 1, collar::Action::Beep, 50, 0);
    // One sync pair, 32 data bits, 8 checksum bits, 3 zero guard bits.
    assert_eq!(waveform.len(), 1 + 32 + 8 + 3);
    let decoded = decode(&waveform, (1400, 800), (300, 800), (800, 300));
    let packet = collar::Packet {
        id: 1234,
        channel: collar::Channel::One,
        action: collar::Action::Beep,
        intensity: 50,
    };
    assert_eq!(decoded, packet.to_bits());
}

#[test]
fn collar_channel_clamp() {
    let holder = LanguageHolder::new(HZ);
    // Channel 7 clamps to channel 2: code 0010.
    let (waveform, _) = holder.craft_collar(1, 7, collar::Action::Beep, 50, 0);
    let decoded = decode(&waveform, (1400, 800), (300, 800), (800, 300));
    assert_eq!(&decoded[16..20], bits("0010").as_slice());
    // Channels 0, 1 and 2 keep their own codes.
    for (channel, code) in [(0u8, "0000"), (1, "0001"), (2, "0010")] {
        let (waveform, _) = holder.craft_collar(1, channel, collar::Action::Beep, 50, 0);
        let decoded = decode(&waveform, (1400, 800), (300, 800), (800, 300));
        assert_eq!(&decoded[16..20], bits(code).as_slice());
    }
}

#[test]
fn collar_intensity_clamp() {
    let holder = LanguageHolder::new(HZ);
    // Intensity 150 clamps to 99 = 01100011.
    let (waveform, _) = holder.craft_collar(1, 0, collar::Action::Shock, 150, 1000);
    let decoded = decode(&waveform, (1400, 800), (300, 800), (800, 300));
    assert_eq!(&decoded[24..32], bits("01100011").as_slice());
}

#[test]
fn collar_duration_clamp_counts() {
    let holder = LanguageHolder::new(HZ);
    // Duration 500 repeats 500 / 50 = 10 times.
    let (_, amount) = holder.craft_collar(1, 0, collar::Action::Shock, 50, 500);
    assert_eq!(amount, 10);
    // Duration 40 clamps up to 300: 6 repeats.
    let (_, amount) = holder.craft_collar(1, 0, collar::Action::Shock, 50, 40);
    assert_eq!(amount, 6);
    // Duration 20000 clamps down to 10000: 200 repeats.
    let (_, amount) = holder.craft_collar(1, 0, collar::Action::Shock, 50, 20000);
    assert_eq!(amount, 200);
    // In-range durations pass through.
    let (_, amount) = holder.craft_collar(1, 0, collar::Action::Shock, 50, 650);
    assert_eq!(amount, 13);
    // Durations between multiples of 50 round to the nearest count:
    // 390 / 50 = 7.8 rounds up to 8, 374 / 50 = 7.48 rounds down to 7,
    // and the midpoint 375 / 50 = 7.5 rounds up.
    let (_, amount) = holder.craft_collar(1, 0, collar::Action::Shock, 50, 390);
    assert_eq!(amount, 8);
    let (_, amount) = holder.craft_collar(1, 0, collar::Action::Shock, 50, 374);
    assert_eq!(amount, 7);
    let (_, amount) = holder.craft_collar(1, 0, collar::Action::Shock, 50, 375);
    assert_eq!(amount, 8);
}
