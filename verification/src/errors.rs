//! Error taxonomy of the core.
//!
//! Configuration mistakes are fatal at startup and never recovered;
//! transport trouble surfaces as a disconnect, not as a per-message
//! error; a malformed payload costs only that one message.

use vstd::prelude::*;

verus! {

/// A startup-time configuration mistake: declaring the same channel or
/// attribute twice, or declaring after the configuration was sealed or
/// traffic had already started.
#[derive(Clone, Copy, Debug, PartialEq, Eq, Structural)]
pub enum ConfigError {
    /// A channel with this id was already declared.
    DuplicateChannel,
    /// A channel was declared after traffic had started to flow.
    TrafficAlreadyStarted,
    /// An attribute with this id was already registered.
    DuplicateRegistration,
    /// A registration arrived after the registry was sealed.
    RegistrySealed,
}

/// Why an outgoing message could not be accepted.
#[derive(Clone, Copy, Debug, PartialEq, Eq, Structural)]
pub enum SendError {
    /// The named channel was never declared.
    UnknownChannel,
    /// The connection was reported lost; network-dependent processing
    /// has been aborted.
    Disconnected,
}

/// A payload that does not decode to any message of the protocol.
/// The single offending message is discarded; no other channel or tick
/// is affected.
#[derive(Clone, Copy, Debug, PartialEq, Eq, Structural)]
pub enum DecodeError {
    MalformedPayload,
}

} // verus!
