//! A local publish/subscribe relay for bridging a command-line process and a
//! browser-based confirmation dialog: a key registry, a broadcast bus with
//! bounded fan-out, a response correlator with one-shot delivery slots, and a
//! timeout-bounded wait state machine, together with the key material and
//! dialog-URL helpers that sit around the relay.

pub mod bus;
pub mod correlator;
pub mod crypto;
pub mod dialog;
pub mod error;
pub mod hexfmt;
pub mod message;
pub mod onboard;
pub mod registry;
pub mod relay;
