//! The plain values that callers hand to the runtime and get back from it.

use vstd::prelude::*;

verus! {

/// The role of a socket.
#[derive(Debug, Clone, Copy, PartialEq, Eq, Hash, Structural)]
pub enum SocketType {
    Server,
    Client,
}

/// The side that opened a stream.
#[derive(Debug, Clone, Copy, PartialEq, Eq, Hash, Structural)]
pub enum ConnectionOwner {
    Peer,
    Host,
}

/// The direction of a stream.
#[derive(Debug, Clone, Copy, PartialEq, Eq, Hash, Structural)]
pub enum StreamType {
    Bi,
    Uni,
}

/// An IP address, as its bytes in network order.
#[derive(Debug, Clone, Copy, PartialEq, Eq, Hash, Structural)]
pub enum IpAddr {
    V4(u8, u8, u8, u8),
    V6(u16, u16, u16, u16, u16, u16, u16, u16),
}

/// A socket address: an IP address and a port. Port 0 asks the operating
/// system to pick one on bind.
#[derive(Debug, Clone, Copy, PartialEq, Eq, Hash, Structural)]
pub struct SocketAddr {
    pub ip: IpAddr,
    pub port: u16,
}

/// The process that owns a socket and is told of the streams its peer opens.
#[derive(Debug, Clone, Copy, PartialEq, Eq, Hash, Structural)]
pub enum QuicSocket {
    Pid(u64),
}

/// The process that owns a stream.
#[derive(Debug, Clone, Copy, PartialEq, Eq, Hash, Structural)]
pub enum QuicStream {
    Pid(u64),
}

} // verus!
