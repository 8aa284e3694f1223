//! The operations of the runtime as an embedding calls them.

use vstd::prelude::*;
use vstd::string::*;
use crate::config::{BeamSocket, BeamStream, SocketRef, StreamRef};
use crate::conn::{NewSocket, Runtime, Socket, Stream};
use crate::error::{ApplicationError, Error, ErrorKind};
use crate::event::read_capacity;
use crate::types::{ConnectionOwner, SocketAddr, SocketType, StreamType};

verus! {

/// A handle to a connection, as the embedding keeps it.
pub struct SocketInterior(pub Socket);

/// A handle to a stream, as the embedding keeps it.
pub struct StreamInterior(pub Stream);

impl SocketInterior {
    pub fn from(socket: Socket) -> (interior: SocketInterior)
        ensures
            interior.0 == socket,
    {
        SocketInterior(socket)
    }
}

impl StreamInterior {
    pub fn from(stream: Stream) -> (interior: StreamInterior)
        ensures
            interior.0 == stream,
    {
        StreamInterior(stream)
    }
}

/// Opens a listening socket. A configuration without a key, a certificate
/// chain or an address is a configuration error. The handle that comes
/// back is one of a server's socket, with no connection.
pub fn listen(runtime: &Runtime, socket_config: BeamSocket, stream_config: BeamStream) -> (result:
    Result<NewSocket, Error>)
    ensures
        socket_config.spec_plan(SocketType::Server) matches Err(error) ==> result == Err::<
            NewSocket,
            Error,
        >(error),
        result matches Ok(socket) ==> socket.role == SocketType::Server && socket.connection
            is None,
{
    NewSocket::new(
        runtime,
        SocketType::Server,
        SocketRef::new(socket_config),
        StreamRef::new(stream_config),
    )
}

/// Opens a client socket, connects it to the address and returns the
/// handle to its connection. A configuration without a certificate to
/// trust or an address is a configuration error.
pub fn connect(
    runtime: &Runtime,
    socket_config: BeamSocket,
    stream_config: BeamStream,
    address: SocketAddr,
    timeout: Option<u64>,
) -> (result: Result<Socket, Error>)
    ensures
        socket_config.spec_plan(SocketType::Client) matches Err(error) ==> result == Err::<
            Socket,
            Error,
        >(error),
{
    let opened = NewSocket::new(
        runtime,
        SocketType::Client,
        SocketRef::new(socket_config),
        StreamRef::new(stream_config),
    );
    match opened {
        Ok(socket) => {
            let mut socket = socket;
            match socket.connect(address, timeout) {
                Ok(_) => match socket.connection {
                    Some(connection) => Ok(connection),
                    None => Err(Error(ErrorKind::Channel)),
                },
                Err(error) => Err(error),
            }
        },
        Err(error) => Err(error),
    }
}

/// Waits for the next inbound connection on a listening socket. On a
/// client's socket the call fails with a state error.
pub fn accept(quic_socket: &NewSocket, timeout: Option<u64>) -> (result: Result<Socket, Error>)
    ensures
        quic_socket.role == SocketType::Client ==> result == Err::<Socket, Error>(
            Error(ErrorKind::State),
        ),
{
    quic_socket.accept(timeout)
}

/// Opens a stream of the kind given on a connection. The handle that
/// comes back is one of a stream of that kind and of this side's own.
pub fn open_stream(quic_socket: &Socket, stream_type: StreamType) -> (result: Result<
    Stream,
    Error,
>)
    ensures
        result matches Ok(stream) ==> stream.kind == stream_type && stream.owner
            == ConnectionOwner::Host,
{
    match stream_type {
        StreamType::Uni => quic_socket.new_uni_stream(),
        StreamType::Bi => quic_socket.new_bi_stream(),
    }
}

/// Reads up to `amount` bytes from a stream. An amount that the machine
/// cannot address is a configuration error, and a stream that does not
/// run towards this side cannot be read: a direction mismatch. What is
/// read is a buffer of `amount` bytes and the number of bytes, no more
/// than `amount`, that were read into its start.
pub fn read(quic_stream: &Stream, amount: u64, timeout: Option<u64>) -> (result: Result<
    (usize, Vec<u8>),
    Error,
>)
    ensures
        amount > usize::MAX ==> result == Err::<(usize, Vec<u8>), Error>(
            Error(ErrorKind::Config),
        ),
        amount <= usize::MAX && !quic_stream.spec_receives() ==> result == Err::<
            (usize, Vec<u8>),
            Error,
        >(Error(ErrorKind::DirectionMismatch)),
        result matches Ok((count, buffer)) ==> count <= amount && buffer@.len() == amount,
{
    match read_capacity(amount) {
        Ok(capacity) => quic_stream.read(capacity, timeout),
        Err(error) => Err(error),
    }
}

/// Writes a text to a stream, as its bytes in UTF-8. A stream that does
/// not run towards the peer cannot be written: a direction mismatch,
/// whatever the text.
pub fn write(quic_stream: &Stream, data: &str) -> (result: Result<(), Error>)
    ensures
        !quic_stream.spec_sends() ==> result == Err::<(), Error>(
            Error(ErrorKind::DirectionMismatch),
        ),
{
    quic_stream.write(data.as_bytes_vec())
}

/// Closes a connection with an error code and, if given, a reason.
pub fn close(quic_socket: &Socket, error_code: ApplicationError, reason: Option<&str>) -> (result:
    Result<(), Error>) {
    let reason = match reason {
        Some(text) => Some(text.to_owned()),
        None => None,
    };
    quic_socket.close(error_code, reason)
}

/// Closes a stream with an error code.
pub fn close_stream(quic_stream: &Stream, error_code: ApplicationError) -> (result: Result<
    (),
    Error,
>) {
    quic_stream.close_stream(error_code)
}

} // verus!
