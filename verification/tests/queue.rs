//! Queue, dispatcher and command-processing checks.

use rf_remote::cli::{self, process_command};
use rf_remote::languages::{collar, LanguageHolder};
use rf_remote::pulse::PulsePair;
use rf_remote::queue::Queue;

const HZ: u32 = 1_000_000;

fn waveform(pairs: &[(u16, u16)]) -> Vec<PulsePair> {
    pairs
        .iter()
        .map(|&(high, low)| PulsePair { high, low })
        .collect()
}

#[test]
fn queue_starts_idle_and_empty() {
    let mut queue = Queue::new();
    assert!(!queue.is_busy());
    assert_eq!(queue.pending_len(), 0);
    assert_eq!(queue.tick(), None);
}

#[test]
fn queue_mutual_exclusion() {
    let first = waveform(&[(1, 2), (3, 4)]);
    let second = waveform(&[(5, 6)]);
    let mut queue = Queue::new();
    queue.send(first.clone());
    queue.send(second.clone());

    // One tick from idle starts exactly the head waveform and reports
    // busy.
    assert_eq!(queue.tick(), Some(first));
    assert!(queue.is_busy());
    assert_eq!(queue.pending_len(), 1);

    // While busy, further ticks start nothing, whatever is pending.
    assert_eq!(queue.tick(), None);
    assert_eq!(queue.tick(), None);
    assert_eq!(queue.pending_len(), 1);

    // Only the completion event frees the slot for the next waveform.
    queue.transmit_finish();
    assert!(!queue.is_busy());
    assert_eq!(queue.tick(), Some(second));
    assert!(queue.is_busy());
    assert_eq!(queue.pending_len(), 0);
}

#[test]
fn queue_interleaving_preserves_entries() {
    // Enqueues interleaved with ticks and completion events: every entry
    // comes out exactly once, in FIFO order.
    let entries: Vec<Vec<PulsePair>> = (0..5u16).map(|i| waveform(&[(i, i + 1)])).collect();
    let mut queue = Queue::new();
    let mut out: Vec<Vec<PulsePair>> = Vec::new();

    queue.send(entries[0].clone());
    queue.send(entries[1].clone());
    out.extend(queue.tick());
    queue.send(entries[2].clone());
    out.extend(queue.tick()); // busy: starts nothing
    queue.transmit_finish();
    out.extend(queue.tick());
    queue.send(entries[3].clone());
    queue.transmit_finish();
    out.extend(queue.tick());
    queue.send(entries[4].clone());
    queue.transmit_finish();
    out.extend(queue.tick());
    queue.transmit_finish();
    out.extend(queue.tick());
    queue.transmit_finish();
    assert_eq!(queue.tick(), None);

    assert_eq!(out, entries);
    assert_eq!(queue.pending_len(), 0);
}

#[test]
fn enqueue_always_accepted_while_busy() {
    let mut queue = Queue::new();
    queue.send(waveform(&[(1, 1)]));
    assert!(queue.tick().is_some());
    assert!(queue.is_busy());
    // The producer is never blocked by an in-flight transmission.
    for _ in 0..100 {
        queue.send(waveform(&[(2, 2)]));
    }
    assert_eq!(queue.pending_len(), 100);
    assert!(queue.is_busy());
}

#[test]
fn socket_command_enqueues_ten_copies() {
    let holder = LanguageHolder::new(HZ);
    let mut queue = Queue::new();
    let request = cli::Request::Socket(cli::Socket { id: 5, state: true });
    process_command(&request, &holder, &mut queue);
    assert_eq!(queue.pending_len(), 10);

    // All ten copies are identical to the crafted signal.
    let expected = holder.craft_socket(5, rf_remote::languages::socket::Action::Enable);
    for _ in 0..10 {
        assert_eq!(queue.tick(), Some(expected.clone()));
        queue.transmit_finish();
    }
    assert_eq!(queue.tick(), None);
}

#[test]
fn collar_command_repeats_by_duration() {
    let holder = LanguageHolder::new(HZ);

    // A 500 ms shock enqueues 500 / 50 = 10 copies.
    let mut queue = Queue::new();
    let request = cli::Request::Collar(cli::Collar {
        id: 1,
        channel: 0,
        action: cli::Action::Shock {
            intensity: 50,
            duration: 500,
        },
    });
    process_command(&request, &holder, &mut queue);
    assert_eq!(queue.pending_len(), 10);

    // A 40 ms vibration clamps up to 300 ms: 6 copies.
    let mut queue = Queue::new();
    let request = cli::Request::Collar(cli::Collar {
        id: 1,
        channel: 0,
        action: cli::Action::Vibration {
            intensity: 50,
            duration: 40,
        },
    });
    process_command(&request, &holder, &mut queue);
    assert_eq!(queue.pending_len(), 6);
}

#[test]
fn beep_and_light_always_repeat_six_times() {
    // Beep and light carry duration 0, which clamps to the 300 ms floor:
    // always 300 / 50 = 6 copies.
    let holder = LanguageHolder::new(HZ);
    let mut queue = Queue::new();
    let request = cli::Request::Collar(cli::Collar {
        id: 1234,
        channel: 1,
        action: cli::Action::Beep,
    });
    process_command(&request, &holder, &mut queue);
    assert_eq!(queue.pending_len(), 6);

    let mut queue = Queue::new();
    let request = cli::Request::Collar(cli::Collar {
        id: 1234,
        channel: 1,
        action: cli::Action::Light { state: true },
    });
    process_command(&request, &holder, &mut queue);
    assert_eq!(queue.pending_len(), 6);
}

#[test]
fn beep_command_end_to_end() {
    // A beep on collar 1234, channel 1, maps to a fixed intensity of 50
    // and six copies of the packet's waveform.
    let holder = LanguageHolder::new(HZ);
    let mut queue = Queue::new();
    let request = cli::Request::Collar(cli::Collar {
        id: 1234,
        channel: 1,
        action: cli::Action::Beep,
    });
    process_command(&request, &holder, &mut queue);

    let (expected, amount) = holder.craft_collar(1234, 1, collar::Action::Beep, 50, 0);
    assert_eq!(amount, 6);
    for _ in 0..6 {
        assert_eq!(queue.tick(), Some(expected.clone()));
        queue.transmit_finish();
    }
    assert_eq!(queue.tick(), None);
}
