//! Application error codes and the errors that the runtime reports.

use vstd::prelude::*;

verus! {

/// The first value that no longer fits a QUIC variable-length integer: 2^62.
pub const VARINT_LIMIT: u64 = 0x4000_0000_0000_0000;

/// An application error code as a caller supplies it: a short one, which
/// always fits a variable-length integer, or a long one, which may not.
#[derive(Debug, Clone, Copy, PartialEq, Eq, Structural)]
pub enum ApplicationError {
    Error(u32),
    LargeError(u64),
}

/// `quinn::VarInt::from_u32` followed by `into_inner`: every `u32` is a valid
/// variable-length integer and keeps its value.
#[verifier::external_body]
fn varint_from_u32(code: u32) -> (value: u64)
    ensures
        value == code,
{
    quinn::VarInt::from_u32(code).into_inner()
}

/// `quinn::VarInt::from_u64`: succeeds exactly for values below 2^62, and the
/// integer made holds the value given.
#[verifier::external_body]
fn varint_from_u64(code: u64) -> (value: Option<u64>)
    ensures
        value == if code < VARINT_LIMIT { Some(code) } else { None::<u64> },
{
    match quinn::VarInt::from_u64(code) {
        Ok(value) => Some(value.into_inner()),
        Err(_) => None,
    }
}

impl ApplicationError {
    /// The number that the code stands for.
    pub open spec fn number(self) -> int {
        match self {
            ApplicationError::Error(code) => code as int,
            ApplicationError::LargeError(code) => code as int,
        }
    }

    /// Whether the code can travel in a close or stop frame.
    pub open spec fn encodable(self) -> bool {
        self.number() < VARINT_LIMIT
    }

    /// The code as a variable-length integer, or `None` where it is too large
    /// for one.
    pub fn into(self) -> (value: Option<u64>)
        ensures
            value == if self.encodable() { Some(self.number() as u64) } else { None::<u64> },
    {
        match self {
            ApplicationError::Error(code) => Some(varint_from_u32(code)),
            ApplicationError::LargeError(code) => varint_from_u64(code),
        }
    }
}

/// What went wrong, by the part of the runtime that found it.
#[derive(Debug, Clone, Copy, PartialEq, Eq, Structural)]
pub enum ErrorKind {
    /// An address, a certificate or a key is missing or malformed.
    Config,
    /// The operating system refused to bind the socket.
    Bind,
    /// The handshake with the peer failed, on connect or on accept.
    Handshake,
    /// A read on a send-only stream, or a write on a receive-only one.
    DirectionMismatch,
    /// The operation outlived the deadline that the caller gave.
    Timeout,
    /// The runtime is gone, or dropped the request without an answer.
    Channel,
    /// The socket or stream is in no state to take the operation.
    State,
}

impl ErrorKind {
    /// What a caller is told of an error of this kind.
    pub open spec fn spec_message(self) -> Seq<char> {
        match self {
            ErrorKind::Config => "Invalid configuration."@,
            ErrorKind::Bind => "Error binding socket."@,
            ErrorKind::Handshake => "Handshake failed."@,
            ErrorKind::DirectionMismatch => "Stream does not run in this direction."@,
            ErrorKind::Timeout => "Timeout."@,
            ErrorKind::Channel => "Error receiving data from runtime."@,
            ErrorKind::State => "Invalid state."@,
        }
    }
}

/// An error as a caller of the runtime sees it.
#[derive(Debug, Clone, Copy, PartialEq, Eq, Structural)]
pub struct Error(pub ErrorKind);

impl Error {
    /// What a caller is told of the error.
    pub fn message(&self) -> (text: String)
        ensures
            text@ == self.0.spec_message(),
    {
        match self.0 {
            ErrorKind::Config => "Invalid configuration.".to_owned(),
            ErrorKind::Bind => "Error binding socket.".to_owned(),
            ErrorKind::Handshake => "Handshake failed.".to_owned(),
            ErrorKind::DirectionMismatch => "Stream does not run in this direction.".to_owned(),
            ErrorKind::Timeout => "Timeout.".to_owned(),
            ErrorKind::Channel => "Error receiving data from runtime.".to_owned(),
            ErrorKind::State => "Invalid state.".to_owned(),
        }
    }
}

} // verus!
