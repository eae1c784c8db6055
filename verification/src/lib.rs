//! A monitoring bridge for a process manager's event stream. It watches for a
//! process that is killed for exceeding its memory limit and then comes back,
//! and calls for exactly one alert per such restart.
//!
//! A chunk of the stream goes through these stages: `decode` makes text of its
//! bytes, `classify` tells which kinds of record it holds, `restart` reads the
//! identifier out of a restart sentence, `payload` reads the identifier and the
//! name out of a process event, `correlator` holds the one pending identifier
//! and decides when an event completes it, and `monitor` takes a chunk through
//! all of them. Reading the stream and sending the alert are left to the
//! caller.

pub mod classify;
pub mod correlator;
pub mod decode;
pub mod monitor;
pub mod payload;
pub mod restart;
pub mod text;
