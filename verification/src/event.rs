//! The requests that handles send to the tasks of the runtime.

use vstd::prelude::*;
use vstd::string::*;
use crate::config::Configs;
use crate::error::{ApplicationError, Error, ErrorKind};
use crate::types::{SocketAddr, SocketType};

verus! {

/// A request to the runtime itself.
#[derive(Debug, Clone)]
pub enum Event {
    /// Bind a socket in the role given.
    OpenSocket(SocketType, Configs),
}

/// A request to a socket that has no connection yet. Deadlines are in
/// milliseconds; `None` waits without limit.
#[derive(Debug, Clone)]
pub enum NewSocketEvent {
    /// Wait for the next inbound connection.
    Accept(Option<u64>),
    /// Connect to the address.
    Connect(SocketAddr, Option<u64>),
    /// Close the socket with an error code and a reason.
    Close(ApplicationError, Option<String>),
}

/// A request to a socket with a live connection.
#[derive(Debug, Clone)]
pub enum SocketEvent {
    /// Close the connection with an error code and a reason.
    Close(ApplicationError, Option<String>),
    OpenBiStream,
    OpenUniStream,
}

/// A request to a stream.
#[derive(Debug, Clone)]
pub enum StreamEvent {
    /// Close the stream with an error code.
    CloseStream(ApplicationError),
    /// Read up to so many bytes, under a deadline.
    Read(usize, Option<u64>),
    /// Write all of the bytes.
    Write(Vec<u8>),
}

/// The bytes of a close reason: its text in UTF-8, or nothing where none
/// was given.
pub open spec fn spec_reason_bytes(reason: Option<String>) -> Seq<u8> {
    match reason {
        Some(text) => vstd::utf8::encode_utf8(text@),
        None => Seq::<u8>::empty(),
    }
}

/// The bytes of a close reason.
pub fn reason_bytes(reason: &Option<String>) -> (bytes: Vec<u8>)
    ensures
        bytes@ == spec_reason_bytes(*reason),
{
    match reason {
        Some(text) => text.as_str().as_bytes_vec(),
        None => Vec::new(),
    }
}

/// The number of bytes that a read may ask for, from the count a caller
/// gave: the count itself where the machine can address so many.
pub fn read_capacity(amount: u64) -> (result: Result<usize, Error>)
    ensures
        result == if amount <= usize::MAX {
            Ok::<usize, Error>(amount as usize)
        } else {
            Err::<usize, Error>(Error(ErrorKind::Config))
        },
{
    if amount <= usize::MAX as u64 {
        Ok(amount as usize)
    } else {
        Err(Error(ErrorKind::Config))
    }
}

} // verus!
