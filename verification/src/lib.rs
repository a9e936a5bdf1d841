//! Encoders and a transmit queue for two one-way RF remote-control
//! protocols: a switched power socket and a training collar.
//!
//! A logical command is packed into an exact, fixed-length bit sequence
//! (`languages`), the bits are turned into a timed pulse waveform
//! (`pulse`), and waveforms are serialized onto the single shared
//! transmitter by a one-in-flight queue (`queue`).

pub mod bits;
pub mod cli;
pub mod languages;
pub mod pulse;
pub mod queue;
