//! The closed set of failures the device-communication core can report.

use vstd::prelude::*;

verus! {

/// Why a mode request was refused before any network attempt.
#[derive(Debug, PartialEq, Eq, Clone)]
pub enum ValidationError {
    /// The requested mode is not one of Auto, AI, Manual, Passive; carries
    /// the offending name.
    UnknownMode(Vec<u8>),
    /// The mode needs a caller configuration and none was given; carries
    /// the required sub-configuration key.
    ConfigRequired(Vec<u8>),
    /// The caller configuration lacks the required sub-configuration;
    /// carries the missing key.
    MissingCfg(Vec<u8>),
}

/// One failure of an operation of the core.
#[derive(Debug, PartialEq, Eq, Clone)]
pub enum Error {
    /// A socket-level failure: bind, send, receive, or the receive timeout.
    /// `timeout` tells a timed-out wait apart from other socket faults.
    Transport { timeout: bool, message: String },
    /// A reply that is not well-formed JSON.
    Codec,
    /// No device has been selected yet.
    Configuration,
    /// A mode request refused before any network attempt.
    Validation(ValidationError),
}

} // verus!
