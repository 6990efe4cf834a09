//! Core protocol errors, with their classification as recoverable or as
//! requiring a reconnect.

use vstd::prelude::*;

use crate::command::Command;
use crate::session::SessionState;

verus! {

/// The standard I/O error type, carried through as an opaque value: the
/// library never inspects it, it only classifies the variant that holds it.
#[verifier::external_type_specification]
#[verifier::external_body]
pub struct ExIoError(std::io::Error);

/// Core protocol errors.
#[derive(Debug)]
pub enum Error {
    /// Packet is too short to be valid.
    PacketTooShort { expected: usize, actual: usize },
    /// Checksum verification failed.
    ChecksumMismatch { expected: u16, received: u16 },
    /// Unknown command code.
    UnknownCommand(u16),
    /// Operation attempted in a session state that forbids it; carries
    /// the state the session was in.
    InvalidSessionState(SessionState),
    /// Session not initialized: connect to the device first.
    SessionNotInitialized,
    /// Device responded with an explicit error acknowledgement.
    DeviceError { command: Command },
    /// Authentication required: the device has a CommKey set.
    AuthenticationRequired,
    /// Authentication failed: invalid password.
    AuthenticationFailed,
    /// Timeout waiting for a response.
    Timeout { seconds: u64 },
    /// Payload would exceed the maximum frame size.
    PayloadTooLarge { size: usize, max: usize },
    /// Reply id mismatch (reserved for stricter request/response pairing).
    InvalidReplyId { expected: u16, actual: u16 },
    /// I/O error passthrough.
    Io(std::io::Error),
}

/// The errors a retry may clear: a timeout, an I/O fault, or an explicit
/// device error.
pub open spec fn is_recoverable_spec(e: &Error) -> bool {
    ||| e is Timeout
    ||| e is Io
    ||| e is DeviceError
}

/// The errors after which the connection must be torn down and rebuilt.
pub open spec fn requires_reconnect_spec(e: &Error) -> bool {
    ||| e is SessionNotInitialized
    ||| e is InvalidSessionState
    ||| e is Io
}

impl Error {
    /// Check if the error is recoverable: a retry might succeed.
    pub fn is_recoverable(&self) -> (r: bool)
        ensures
            r == is_recoverable_spec(self),
    {
        match self {
            Error::Timeout { .. } => true,
            Error::Io(_) => true,
            Error::DeviceError { .. } => true,
            _ => false,
        }
    }

    /// Check if the error requires reconnection.
    pub fn requires_reconnect(&self) -> (r: bool)
        ensures
            r == requires_reconnect_spec(self),
    {
        match self {
            Error::SessionNotInitialized => true,
            Error::InvalidSessionState(_) => true,
            Error::Io(_) => true,
            _ => false,
        }
    }
}

} // verus!
