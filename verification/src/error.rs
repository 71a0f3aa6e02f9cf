//! Error taxonomy of the protocol engine.

use vstd::prelude::*;

verus! {

/// Everything that can go wrong while driving a device.
#[derive(Debug)]
pub enum EarError {
    /// The serial port is not connected.
    NotConnected,
    /// A session is already active.
    AlreadyConnected,
    /// No session is active.
    NoSession,
    /// The named operation is not supported by the connected model.
    Unsupported(&'static str),
    /// Model metadata is missing.
    UnknownModel,
    /// Timed out while waiting for the named operation.
    Timeout(&'static str),
    /// Failed to decode a packet header.
    InvalidPacket,
    /// A frame arrived with an incorrect checksum.
    CrcMismatch,
    /// Device identity detection failed for the given reason.
    Detection(String),
    /// An external command failed with the given output.
    CommandFailed { command: String, output: String },
    /// An I/O failure, rendered as text.
    Io(String),
}

/// The HTTP status a user-facing surface reports for an error:
/// 404 for a missing session, 409 for a session that already exists,
/// 400 for detection failures, unsupported operations and missing model
/// metadata, 504 for timeouts, and 500 for everything else.
pub open spec fn spec_http_status(e: EarError) -> u16 {
    match e {
        EarError::NoSession => 404,
        EarError::AlreadyConnected => 409,
        EarError::Detection(_) => 400,
        EarError::Unsupported(_) => 400,
        EarError::UnknownModel => 400,
        EarError::Timeout(_) => 504,
        _ => 500,
    }
}

impl EarError {
    /// The HTTP status a user-facing surface reports for this error.
    pub fn http_status(&self) -> (status: u16)
        ensures
            status == spec_http_status(*self),
    {
        match self {
            EarError::NoSession => 404,
            EarError::AlreadyConnected => 409,
            EarError::Detection(_) => 400,
            EarError::Unsupported(_) => 400,
            EarError::UnknownModel => 400,
            EarError::Timeout(_) => 504,
            _ => 500,
        }
    }
}

} // verus!
