//! Core of a tick-synchronized networked simulation: a fixed-rate tick
//! clock, logical message channels with declared delivery contracts, a
//! replication registry that decides how incoming values are applied,
//! per-tick input replication, and a rollback controller that reconciles
//! predicted state with authoritative corrections by deterministic replay.
//!
//! Rendering, raw socket transport, connection handshake and device
//! polling are outside this crate; it works on plain values that such
//! layers hand in and take out.

pub mod errors;
pub mod identity;
pub mod tick;
pub mod config;
pub mod channel;
pub mod registry;
pub mod input;
pub mod rollback;
pub mod sync;
