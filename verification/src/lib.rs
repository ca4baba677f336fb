//! Session bridge for a remote audio-mixing service.
//!
//! A synchronous, frame-driven consumer submits operator intents
//! ([`command::Command`]) into a bounded queue and polls inventory
//! snapshots ([`snapshot::Snapshot`]) out of another, while an
//! asynchronous driver owns the single connection to the mixer,
//! drains the command queue in order, and reports state changes and
//! failures back without ever crashing the process.

pub mod bridge;
pub mod command;
pub mod driver;
pub mod laws;
pub mod queue;
pub mod snapshot;
pub mod text;
