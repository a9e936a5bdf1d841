//! Turning parsed command requests into enqueued signals.
//!
//! Parsing the textual request format happens outside this library; a
//! parsed request arrives here as a plain `Request` value. Processing a
//! request crafts its waveform and enqueues the protocol's number of
//! repetitions: the protocols are one-way and open-loop, so a short burst
//! of identical transmissions is the only reliability mechanism.

use crate::languages::{
    collar, socket, spec_collar_packet, spec_repeat_count, CollarAction, LanguageHolder,
    SocketAction,
};
use crate::pulse::{spec_waveform, PulsePair};
use crate::queue::Queue;
use vstd::prelude::*;

verus! {

/// A parsed request for a remote socket.
pub struct Socket {
    /// ID of the remote socket.
    pub id: u8,
    /// Whether to turn it on or off.
    pub state: bool,
}

/// A parsed request for a collar.
pub struct Collar {
    /// ID of the collar.
    pub id: u16,
    /// Channel of the collar.
    pub channel: u8,
    /// Type of action to perform.
    pub action: Action,
}

/// Type of action a collar request asks for.
pub enum Action {
    /// Deliver a shock.
    Shock {
        /// Intensity of the shock (0-99).
        intensity: u8,
        /// Duration of the shock in milliseconds.
        duration: u16,
    },
    /// Deliver a vibration.
    Vibration {
        /// Intensity of the vibration (0-99).
        intensity: u8,
        /// Duration of the vibration in milliseconds.
        duration: u16,
    },
    /// Beep the collar.
    Beep,
    /// Toggle the collar light.
    Light {
        /// Whether to turn the light on or off.
        state: bool,
    },
}

/// A parsed request.
pub enum Request {
    /// Command a remote socket.
    Socket(Socket),
    /// Command a collar.
    Collar(Collar),
}

/// The collar action, intensity and duration that a requested action maps
/// to. A beep carries a fixed intensity of 50 and duration 0; a light
/// toggle encodes its state as intensity 1 or 0 and duration 0. The zero
/// durations are later clamped to the 300 ms floor, so both always repeat
/// six times.
pub open spec fn spec_collar_params(a: Action) -> (CollarAction, u8, u16) {
    match a {
        Action::Shock { intensity, duration } => (CollarAction::Shock, intensity, duration),
        Action::Vibration { intensity, duration } => (CollarAction::Vibrate, intensity, duration),
        Action::Beep => (CollarAction::Beep, 50u8, 0u16),
        Action::Light { state } => (
            CollarAction::Light,
            if state {
                1u8
            } else {
                0u8
            },
            0u16,
        ),
    }
}

/// The waveform a request crafts under a holder's timing tables.
pub open spec fn spec_request_waveform(r: Request, l: LanguageHolder) -> Seq<PulsePair> {
    match r {
        Request::Socket(s) => spec_waveform(
            l.socket_timing(),
            (socket::Packet {
                id: s.id,
                action: if s.state {
                    SocketAction::Enable
                } else {
                    SocketAction::Disable
                },
            }).spec_bits(),
        ),
        Request::Collar(c) => spec_waveform(
            l.collar_timing(),
            spec_collar_packet(
                c.id,
                c.channel,
                spec_collar_params(c.action).0,
                spec_collar_params(c.action).1,
            ).spec_bits(),
        ),
    }
}

/// How many identical copies of its waveform a request enqueues: a socket
/// command always 10; a collar command its clamped duration divided by
/// the 50 ms length of one transmission, rounded to the nearest count.
pub open spec fn spec_request_repeats(r: Request) -> int {
    match r {
        Request::Socket(_) => 10,
        Request::Collar(c) => spec_repeat_count(spec_collar_params(c.action).2 as int),
    }
}

/// Enqueue `amount` identical copies of a waveform.
pub fn send_repeated(queue: &mut Queue, signal: &Vec<PulsePair>, amount: u16)
    ensures
        final(queue).model().busy == old(queue).model().busy,
        final(queue).model().pending =~= old(queue).model().pending + Seq::new(
            amount as nat,
            |i: int| signal@,
        ),
{
    let mut sent: u16 = 0;
    while sent < amount
        invariant
            sent <= amount,
            queue.model().busy == old(queue).model().busy,
            queue.model().pending =~= old(queue).model().pending + Seq::new(
                sent as nat,
                |i: int| signal@,
            ),
        decreases amount - sent,
    {
        let copy = clone_waveform(signal);
        queue.send(copy);
        sent = sent + 1;
        proof {
            assert(queue.model().pending =~= old(queue).model().pending + Seq::new(
                sent as nat,
                |i: int| signal@,
            ));
        }
    }
}

/// Copy a waveform so that one more identical transmission can be
/// enqueued.
fn clone_waveform(signal: &Vec<PulsePair>) -> (r: Vec<PulsePair>)
    ensures
        r@ == signal@,
{
    let mut copy: Vec<PulsePair> = Vec::with_capacity(signal.len());
    let mut i: usize = 0;
    while i < signal.len()
        invariant
            i <= signal@.len(),
            copy@ =~= signal@.subrange(0, i as int),
        decreases signal@.len() - i,
    {
        copy.push(signal[i]);
        i = i + 1;
    }
    proof {
        assert(copy@ =~= signal@);
    }
    copy
}

/// Process a parsed command: craft its waveform and enqueue the
/// protocol's number of repetitions. The busy flag is untouched; the
/// pending buffer grows by exactly the repeated copies of the crafted
/// waveform.
pub fn process_command(request: &Request, languages: &LanguageHolder, queue: &mut Queue)
    ensures
        final(queue).model().busy == old(queue).model().busy,
        final(queue).model().pending =~= old(queue).model().pending + Seq::new(
            spec_request_repeats(*request) as nat,
            |i: int| spec_request_waveform(*request, *languages),
        ),
{
    match request {
        Request::Socket(socket_req) => {
            let signal = languages.craft_socket(
                socket_req.id,
                socket::Action::from_state(socket_req.state),
            );
            send_repeated(queue, &signal, 10);
        },
        Request::Collar(collar_req) => {
            let (action, intensity, duration) = match &collar_req.action {
                Action::Shock { intensity, duration } => (
                    collar::Action::Shock,
                    *intensity,
                    *duration,
                ),
                Action::Vibration { intensity, duration } => (
                    collar::Action::Vibrate,
                    *intensity,
                    *duration,
                ),
                Action::Beep => (collar::Action::Beep, 50u8, 0u16),
                Action::Light { state } => (
                    collar::Action::Light,
                    if *state {
                        1u8
                    } else {
                        0u8
                    },
                    0u16,
                ),
            };
            let (signal, amount) = languages.craft_collar(
                collar_req.id,
                collar_req.channel,
                action,
                intensity,
                duration,
            );
            send_repeated(queue, &signal, amount);
        },
    }
}

} // verus!
