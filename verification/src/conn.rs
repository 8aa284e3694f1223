//! The handles through which callers reach the tasks of the runtime.

use std::sync::mpsc::{Receiver, Sender};
use tokio::sync::mpsc::UnboundedSender;
use vstd::prelude::*;
use crate::config::{Configs, SocketRef, StreamRef};
use crate::error::{ApplicationError, Error, ErrorKind};
use crate::event::{Event, NewSocketEvent, SocketEvent, StreamEvent};
use crate::state::SocketState;
use crate::stream_state::{holds_recv, holds_send, StreamState};
use crate::types::{ConnectionOwner, SocketAddr, SocketType, StreamType};

verus! {

/// The sending half of `tokio`'s unbounded channel.
#[verifier::external_type_specification]
#[verifier::external_body]
#[verifier::reject_recursive_types(T)]
pub struct ExUnboundedSender<T>(UnboundedSender<T>);

/// The sending half of `std`'s channel.
#[verifier::external_type_specification]
#[verifier::external_body]
#[verifier::reject_recursive_types(T)]
pub struct ExSender<T>(Sender<T>);

/// The receiving half of `std`'s channel.
#[verifier::external_type_specification]
#[verifier::external_body]
#[verifier::reject_recursive_types(T)]
pub struct ExReceiver<T>(Receiver<T>);

/// `UnboundedSender::clone`: one more sender into the same channel.
pub assume_specification<T>[ <UnboundedSender<T> as Clone>::clone ](
    sender: &UnboundedSender<T>,
) -> (cloned: UnboundedSender<T>)
    ensures
        cloned == *sender,
;

/// A request on its way to a task: what is asked, and where the answer
/// goes.
#[verifier::reject_recursive_types(R)]
pub struct Request<E, R> {
    pub event: E,
    pub responder: Sender<Result<R, Error>>,
}

/// The answers of a socket without a connection.
pub enum NewSocketReply {
    /// A handle to the connection that was accepted or made.
    Socket(Socket),
    /// The socket is closed.
    Closed,
}

/// The answers of a socket with a connection.
pub enum SocketReply {
    /// A handle to the stream that was opened.
    Stream(Stream),
    /// The connection is closed.
    Closed,
}

/// The answers of a stream.
pub enum StreamReply {
    /// The number of bytes read, and the buffer that holds them.
    Read(usize, Vec<u8>),
    /// The bytes are written.
    Written,
    /// The stream is closed.
    Closed,
}

/// The right to open sockets on a runtime. It may be cloned and shared;
/// the runtime is one.
#[derive(Clone)]
pub struct Runtime(pub UnboundedSender<Request<Event, NewSocket>>);

/// The right to send requests to a socket, with the role that the socket
/// was opened in and, once a client's socket has connected, the handle to
/// its connection. The connection is that of the socket's own task: to
/// connect makes no new socket.
#[derive(Clone)]
pub struct NewSocket {
    pub channel: UnboundedSender<Request<NewSocketEvent, NewSocketReply>>,
    pub role: SocketType,
    pub connection: Option<Socket>,
}

/// The right to send requests to a socket with a live connection.
#[derive(Clone)]
pub struct Socket(pub UnboundedSender<Request<SocketEvent, SocketReply>>);

/// The right to send requests to a stream, with the stream's kind and the
/// side that opened it, as seen from the holder of the handle.
#[derive(Clone)]
pub struct Stream {
    pub channel: UnboundedSender<Request<StreamEvent, StreamReply>>,
    pub kind: StreamType,
    pub owner: ConnectionOwner,
}

/// A close on its way from a socket's handle: to the socket's task as it
/// was opened, or to the connection that the socket has made.
#[derive(Debug)]
pub enum CloseRequest {
    Socket(NewSocketEvent),
    Connection(SocketEvent),
}

/// What a caller gets who asks for the runtime of the process.
pub enum Started<T> {
    /// The thread that the runtime runs on, for the caller to wait on or
    /// to let go.
    Thread(T),
    /// A handle to the runtime.
    Runtime(Runtime),
}

impl Runtime {
    /// One more handle to the same runtime.
    pub fn share(&self) -> (shared: Runtime)
        ensures
            shared == *self,
    {
        Runtime(self.0.clone())
    }
}

/// Gives out the runtime of the process. The thread it runs on is given
/// out once, to the first who asks; everyone after that gets a handle to
/// the runtime.
pub fn handle<T>(thread: &mut Option<T>, runtime: &Runtime) -> (started: Started<T>)
    ensures
        *final(thread) is None,
        started == match *old(thread) {
            Some(running) => Started::Thread(running),
            None => Started::<T>::Runtime(*runtime),
        },
{
    match thread.take() {
        Some(running) => Started::Thread(running),
        None => Started::Runtime(runtime.share()),
    }
}

/// `std::sync::mpsc::channel`: a fresh channel for one answer.
#[verifier::external_body]
fn answer_channel<R>() -> (halves: (Sender<Result<R, Error>>, Receiver<Result<R, Error>>)) {
    std::sync::mpsc::channel()
}

/// `tokio::sync::mpsc::UnboundedSender::send`: hands the request to the
/// task, without waiting. Says whether the task's channel took it; it does
/// not once the receiving half is closed or dropped.
#[verifier::external_body]
fn post<E, R>(channel: &UnboundedSender<Request<E, R>>, request: Request<E, R>) -> (sent: bool) {
    channel.send(request).is_ok()
}

/// `std::sync::mpsc::Receiver::recv`: waits for the answer, for as long as
/// the task holds on to the sending half. There is none when the sending
/// half was dropped without one.
#[verifier::external_body]
fn await_answer<R>(answers: Receiver<Result<R, Error>>) -> (answer: Option<Result<R, Error>>) {
    answers.recv().ok()
}

/// What a call returns, by how the exchange with the task went: the
/// task's answer where there is one, and a channel error where the request
/// could not be sent or no answer came.
pub open spec fn spec_settle<R>(sent: bool, answer: Option<Result<R, Error>>) -> Result<R, Error> {
    if !sent {
        Err(Error(ErrorKind::Channel))
    } else {
        match answer {
            Some(reply) => reply,
            None => Err(Error(ErrorKind::Channel)),
        }
    }
}

/// What a call returns, by how the exchange with the task went.
pub fn settle<R>(sent: bool, answer: Option<Result<R, Error>>) -> (result: Result<R, Error>)
    ensures
        result == spec_settle(sent, answer),
{
    if !sent {
        return Err(Error(ErrorKind::Channel));
    }
    match answer {
        Some(reply) => reply,
        None => Err(Error(ErrorKind::Channel)),
    }
}

/// What a close returns, by how the exchange with the task went. A task
/// ends when its socket or stream is closed, and then neither takes
/// requests nor answers those that it had not taken yet. So a close that
/// could not be sent, or was not answered, is a close of what is closed
/// already: a state error.
pub open spec fn spec_settle_close<R>(sent: bool, answer: Option<Result<R, Error>>) -> Result<
    R,
    Error,
> {
    if !sent {
        Err(Error(ErrorKind::State))
    } else {
        match answer {
            Some(reply) => reply,
            None => Err(Error(ErrorKind::State)),
        }
    }
}

/// What a close returns, by how the exchange with the task went.
pub fn settle_close<R>(sent: bool, answer: Option<Result<R, Error>>) -> (result: Result<R, Error>)
    ensures
        result == spec_settle_close(sent, answer),
{
    if !sent {
        return Err(Error(ErrorKind::State));
    }
    match answer {
        Some(reply) => reply,
        None => Err(Error(ErrorKind::State)),
    }
}

/// Sends a close to the task behind the channel and waits for the answer.
fn call_close<E, R>(channel: &UnboundedSender<Request<E, R>>, event: E) -> (result: Result<
    R,
    Error,
>) {
    let (responder, answers) = answer_channel();
    let sent = post(channel, Request { event, responder });
    if sent {
        settle_close(true, await_answer(answers))
    } else {
        settle_close(false, None)
    }
}

/// Sends the event to the task behind the channel and waits for the
/// answer.
fn call<E, R>(channel: &UnboundedSender<Request<E, R>>, event: E) -> (result: Result<R, Error>) {
    let (responder, answers) = answer_channel();
    let sent = post(channel, Request { event, responder });
    if sent {
        settle(true, await_answer(answers))
    } else {
        settle(false, None)
    }
}

/// The handle in an answer that is to hold one. An answer of another kind
/// is none that the task could have meant: a channel error.
pub fn socket_of(reply: Result<NewSocketReply, Error>) -> (result: Result<Socket, Error>)
    ensures
        result == match reply {
            Ok(NewSocketReply::Socket(socket)) => Ok::<Socket, Error>(socket),
            Ok(NewSocketReply::Closed) => Err::<Socket, Error>(Error(ErrorKind::Channel)),
            Err(error) => Err::<Socket, Error>(error),
        },
{
    match reply {
        Ok(NewSocketReply::Socket(socket)) => Ok(socket),
        Ok(NewSocketReply::Closed) => Err(Error(ErrorKind::Channel)),
        Err(error) => Err(error),
    }
}

/// The success in an answer to a close of a socket without a connection.
pub fn closed_new_of(reply: Result<NewSocketReply, Error>) -> (result: Result<(), Error>)
    ensures
        result == match reply {
            Ok(NewSocketReply::Closed) => Ok::<(), Error>(()),
            Ok(NewSocketReply::Socket(_)) => Err::<(), Error>(Error(ErrorKind::Channel)),
            Err(error) => Err::<(), Error>(error),
        },
{
    match reply {
        Ok(NewSocketReply::Closed) => Ok(()),
        Ok(NewSocketReply::Socket(_)) => Err(Error(ErrorKind::Channel)),
        Err(error) => Err(error),
    }
}

/// The handle in an answer to a request for a stream of the kind given.
/// It has to be a handle to a stream of that kind that this side opened;
/// any other answer is none that the task could have meant: a channel
/// error.
pub fn stream_of_kind(reply: Result<SocketReply, Error>, kind: StreamType) -> (result: Result<
    Stream,
    Error,
>)
    ensures
        result == match reply {
            Ok(SocketReply::Stream(stream)) => if stream.kind == kind && stream.owner
                == ConnectionOwner::Host {
                Ok::<Stream, Error>(stream)
            } else {
                Err::<Stream, Error>(Error(ErrorKind::Channel))
            },
            Ok(SocketReply::Closed) => Err::<Stream, Error>(Error(ErrorKind::Channel)),
            Err(error) => Err::<Stream, Error>(error),
        },
{
    match reply {
        Ok(SocketReply::Stream(stream)) => {
            if stream.kind == kind && stream.owner == ConnectionOwner::Host {
                Ok(stream)
            } else {
                Err(Error(ErrorKind::Channel))
            }
        },
        Ok(SocketReply::Closed) => Err(Error(ErrorKind::Channel)),
        Err(error) => Err(error),
    }
}

/// The handle in an answer to a request for a socket of the role given. It
/// has to be a handle to a socket of that role that has no connection yet;
/// any other answer is none that the runtime could have meant: a channel
/// error.
pub fn new_socket_of_role(reply: Result<NewSocket, Error>, role: SocketType) -> (result: Result<
    NewSocket,
    Error,
>)
    ensures
        result == match reply {
            Ok(socket) => if socket.role == role && socket.connection is None {
                Ok::<NewSocket, Error>(socket)
            } else {
                Err::<NewSocket, Error>(Error(ErrorKind::Channel))
            },
            Err(error) => Err::<NewSocket, Error>(error),
        },
{
    match reply {
        Ok(socket) => {
            if socket.role == role && socket.connection.is_none() {
                Ok(socket)
            } else {
                Err(Error(ErrorKind::Channel))
            }
        },
        Err(error) => Err(error),
    }
}

/// The request that opens a socket of the role given: the role and the
/// two configurations as they were given. A configuration that lacks what
/// the role needs is turned down, and no request is made.
pub fn open_request(conn_type: SocketType, socket_config: SocketRef, stream_config: StreamRef) -> (request:
    Result<Event, Error>)
    ensures
        request == match socket_config.0.spec_plan(conn_type) {
            Ok(_) => Ok::<Event, Error>(
                Event::OpenSocket(conn_type, (Configs { socket_config, stream_config })),
            ),
            Err(error) => Err::<Event, Error>(error),
        },
{
    match socket_config.0.plan(conn_type) {
        Ok(_) => Ok(Event::OpenSocket(conn_type, Configs { socket_config, stream_config })),
        Err(error) => Err(error),
    }
}

/// The success in an answer to a close of a connection.
pub fn closed_of(reply: Result<SocketReply, Error>) -> (result: Result<(), Error>)
    ensures
        result == match reply {
            Ok(SocketReply::Closed) => Ok::<(), Error>(()),
            Ok(SocketReply::Stream(_)) => Err::<(), Error>(Error(ErrorKind::Channel)),
            Err(error) => Err::<(), Error>(error),
        },
{
    match reply {
        Ok(SocketReply::Closed) => Ok(()),
        Ok(SocketReply::Stream(_)) => Err(Error(ErrorKind::Channel)),
        Err(error) => Err(error),
    }
}

/// What a read of `capacity` bytes returns for an answer: the number of
/// bytes read and the buffer, where the answer holds them and they fit
/// what was asked for, which is a buffer as long as was asked for and no
/// more bytes read than it holds. Any other answer is none that the task
/// could have meant: a channel error.
pub open spec fn spec_read_of(reply: Result<StreamReply, Error>, capacity: usize) -> Result<
    (usize, Vec<u8>),
    Error,
> {
    match reply {
        Ok(StreamReply::Read(count, buffer)) => if count <= capacity && buffer@.len()
            == capacity {
            Ok((count, buffer))
        } else {
            Err(Error(ErrorKind::Channel))
        },
        Ok(_) => Err(Error(ErrorKind::Channel)),
        Err(error) => Err(error),
    }
}

/// What was read, in an answer to a read of `capacity` bytes.
pub fn read_of(reply: Result<StreamReply, Error>, capacity: usize) -> (result: Result<
    (usize, Vec<u8>),
    Error,
>)
    ensures
        result == spec_read_of(reply, capacity),
{
    match reply {
        Ok(StreamReply::Read(count, buffer)) => {
            if count <= capacity && buffer.len() == capacity {
                Ok((count, buffer))
            } else {
                Err(Error(ErrorKind::Channel))
            }
        },
        Ok(_) => Err(Error(ErrorKind::Channel)),
        Err(error) => Err(error),
    }
}

/// The success in an answer to a write.
pub fn written_of(reply: Result<StreamReply, Error>) -> (result: Result<(), Error>)
    ensures
        result == match reply {
            Ok(StreamReply::Written) => Ok::<(), Error>(()),
            Ok(_) => Err::<(), Error>(Error(ErrorKind::Channel)),
            Err(error) => Err::<(), Error>(error),
        },
{
    match reply {
        Ok(StreamReply::Written) => Ok(()),
        Ok(_) => Err(Error(ErrorKind::Channel)),
        Err(error) => Err(error),
    }
}

/// The success in an answer to a close of a stream.
pub fn stream_closed_of(reply: Result<StreamReply, Error>) -> (result: Result<(), Error>)
    ensures
        result == match reply {
            Ok(StreamReply::Closed) => Ok::<(), Error>(()),
            Ok(_) => Err::<(), Error>(Error(ErrorKind::Channel)),
            Err(error) => Err::<(), Error>(error),
        },
{
    match reply {
        Ok(StreamReply::Closed) => Ok(()),
        Ok(_) => Err(Error(ErrorKind::Channel)),
        Err(error) => Err(error),
    }
}

impl NewSocket {
    /// The request that an accept under the deadline makes of this socket.
    /// Only a server's socket accepts: on a client's the accept is turned
    /// down with a state error, under whatever deadline, and no request is
    /// made.
    pub fn accept_request(&self, timeout: Option<u64>) -> (request: Result<NewSocketEvent, Error>)
        ensures
            request == match self.role {
                SocketType::Server => Ok::<NewSocketEvent, Error>(NewSocketEvent::Accept(timeout)),
                SocketType::Client => Err::<NewSocketEvent, Error>(Error(ErrorKind::State)),
            },
    {
        match self.role {
            SocketType::Server => Ok(NewSocketEvent::Accept(timeout)),
            SocketType::Client => Err(Error(ErrorKind::State)),
        }
    }

    /// The request that a connect to the address under the deadline makes
    /// of this socket. Only a client's socket connects: on a server's the
    /// connect is turned down with a state error, and no request is made.
    pub fn connect_request(&self, address: SocketAddr, timeout: Option<u64>) -> (request: Result<
        NewSocketEvent,
        Error,
    >)
        ensures
            request == match self.role {
                SocketType::Client => Ok::<NewSocketEvent, Error>(
                    NewSocketEvent::Connect(address, timeout),
                ),
                SocketType::Server => Err::<NewSocketEvent, Error>(Error(ErrorKind::State)),
            },
    {
        match self.role {
            SocketType::Client => Ok(NewSocketEvent::Connect(address, timeout)),
            SocketType::Server => Err(Error(ErrorKind::State)),
        }
    }

    /// The request that a close with the code and the reason makes, and
    /// whom it is made of: the connection, where the socket has one, and
    /// else the socket itself. Whether the code can be encoded is for the
    /// task to say, after it has said whether the socket is closed
    /// already.
    pub fn close_request(&self, error_code: ApplicationError, reason: Option<String>) -> (request:
        CloseRequest)
        ensures
            request == if self.connection is Some {
                CloseRequest::Connection(SocketEvent::Close(error_code, reason))
            } else {
                CloseRequest::Socket(NewSocketEvent::Close(error_code, reason))
            },
    {
        match self.connection {
            Some(_) => CloseRequest::Connection(Socket::close_request(error_code, reason)),
            None => CloseRequest::Socket(NewSocketEvent::Close(error_code, reason)),
        }
    }

    /// The handle to the task of a socket in the state given: one of the
    /// role that the state is a phase of, with no connection yet. There is
    /// none for a state that is no phase of a socket without a connection.
    pub fn of(
        channel: UnboundedSender<Request<NewSocketEvent, NewSocketReply>>,
        state: &SocketState,
    ) -> (handle: Option<NewSocket>)
        ensures
            handle == match state.spec_role() {
                Some(role) => Some(NewSocket { channel, role, connection: None }),
                None => None::<NewSocket>,
            },
    {
        match state.role() {
            Some(role) => Some(NewSocket { channel, role, connection: None }),
            None => None,
        }
    }

    /// Opens a socket of the role given on the runtime and waits until it
    /// is bound. A configuration that lacks what the role needs is turned
    /// down here, before the runtime hears of it; what else comes back is
    /// what the runtime answered to [`open_request`], as
    /// [`new_socket_of_role`] takes it, or a channel error where it did not
    /// answer. The handle that comes back is one of the role asked for,
    /// with no connection yet.
    pub fn new(
        runtime: &Runtime,
        conn_type: SocketType,
        socket_config: SocketRef,
        stream_config: StreamRef,
    ) -> (result: Result<NewSocket, Error>)
        ensures
            socket_config.0.spec_plan(conn_type) matches Err(error) ==> result == Err::<
                NewSocket,
                Error,
            >(error),
            result matches Ok(socket) ==> socket.role == conn_type && socket.connection is None,
    {
        match open_request(conn_type, socket_config, stream_config) {
            Ok(request) => new_socket_of_role(call(&runtime.0, request), conn_type),
            Err(error) => Err(error),
        }
    }

    /// Waits for the next inbound connection, no longer than the deadline
    /// in milliseconds if one is given, and returns a handle to it: what
    /// the task answered to [`NewSocket::accept_request`], as
    /// [`socket_of`] takes it. On a client's socket the call fails with a
    /// state error, under whatever deadline, and the task is not asked.
    pub fn accept(&self, timeout: Option<u64>) -> (result: Result<Socket, Error>)
        ensures
            self.role == SocketType::Client ==> result == Err::<Socket, Error>(
                Error(ErrorKind::State),
            ),
    {
        match self.accept_request(timeout) {
            Ok(request) => socket_of(call(&self.channel, request)),
            Err(error) => Err(error),
        }
    }

    /// Connects to the address, no longer than the deadline in
    /// milliseconds if one is given. The socket's own task takes up the
    /// connection: nothing new is made, and this handle holds the handle
    /// to the connection from then on. Where the connect fails the handle
    /// is as before. On a server's socket the call fails with a state
    /// error, and the task is not asked.
    pub fn connect(&mut self, address: SocketAddr, timeout: Option<u64>) -> (result: Result<
        (),
        Error,
    >)
        ensures
            final(self).channel == old(self).channel,
            final(self).role == old(self).role,
            old(self).role == SocketType::Server ==> result == Err::<(), Error>(
                Error(ErrorKind::State),
            ),
            result is Ok ==> final(self).connection is Some,
            result is Err ==> final(self).connection == old(self).connection,
    {
        let answered = match self.connect_request(address, timeout) {
            Ok(request) => socket_of(call(&self.channel, request)),
            Err(error) => Err(error),
        };
        self.connected(answered)
    }

    /// Takes up what a connect came to: the handle to the connection is
    /// kept where there is one, and where there is an error the handle is
    /// left as it was and the error returned.
    pub fn connected(&mut self, answered: Result<Socket, Error>) -> (result: Result<(), Error>)
        ensures
            final(self).channel == old(self).channel,
            final(self).role == old(self).role,
            match answered {
                Ok(socket) => result == Ok::<(), Error>(()) && final(self).connection == Some(
                    socket,
                ),
                Err(error) => result == Err::<(), Error>(error) && final(self).connection
                    == old(self).connection,
            },
    {
        match answered {
            Ok(socket) => {
                self.connection = Some(socket);
                Ok(())
            },
            Err(error) => Err(error),
        }
    }

    /// Closes the socket with an error code and a reason: what the task
    /// answered to [`NewSocket::close_request`], as [`closed_of`] or
    /// [`closed_new_of`] takes it. The close goes where the socket's task
    /// listens: to the connection, once the socket has one. A socket whose
    /// task has ended is closed already: a state error, whatever the code.
    pub fn close(&self, error_code: ApplicationError, reason: Option<String>) -> (result: Result<
        (),
        Error,
    >) {
        match &self.connection {
            Some(connection) => {
                match self.close_request(error_code, reason) {
                    CloseRequest::Connection(request) => closed_of(
                        call_close(&connection.0, request),
                    ),
                    CloseRequest::Socket(_) => vstd::pervasive::unreached(),
                }
            },
            None => {
                match self.close_request(error_code, reason) {
                    CloseRequest::Socket(request) => closed_new_of(
                        call_close(&self.channel, request),
                    ),
                    CloseRequest::Connection(_) => vstd::pervasive::unreached(),
                }
            },
        }
    }
}

impl Socket {
    /// The request that opens a stream of the kind given.
    pub fn stream_request(kind: StreamType) -> (request: SocketEvent)
        ensures
            request == match kind {
                StreamType::Uni => SocketEvent::OpenUniStream,
                StreamType::Bi => SocketEvent::OpenBiStream,
            },
    {
        match kind {
            StreamType::Uni => SocketEvent::OpenUniStream,
            StreamType::Bi => SocketEvent::OpenBiStream,
        }
    }

    /// The request that a close with the code and the reason makes of a
    /// connection. Whether the code can be encoded is for the task to
    /// say, after it has said whether the connection is closed already.
    pub fn close_request(error_code: ApplicationError, reason: Option<String>) -> (request:
        SocketEvent)
        ensures
            request == SocketEvent::Close(error_code, reason),
    {
        SocketEvent::Close(error_code, reason)
    }

    /// Opens a stream of the kind given, which this side is the owner of:
    /// what the task answered to [`Socket::stream_request`], as
    /// [`stream_of_kind`] takes it.
    fn new_stream(&self, kind: StreamType) -> (result: Result<Stream, Error>)
        ensures
            result matches Ok(stream) ==> stream.kind == kind && stream.owner
                == ConnectionOwner::Host,
    {
        stream_of_kind(call(&self.0, Socket::stream_request(kind)), kind)
    }

    /// Opens a stream that only this side writes. The handle that comes
    /// back is one of a unidirectional stream of this side's own: it takes
    /// writes and no reads.
    pub fn new_uni_stream(&self) -> (result: Result<Stream, Error>)
        ensures
            result matches Ok(stream) ==> stream.kind == StreamType::Uni && stream.owner
                == ConnectionOwner::Host && stream.spec_sends() && !stream.spec_receives(),
    {
        self.new_stream(StreamType::Uni)
    }

    /// Opens a stream that both sides read and write. The handle that
    /// comes back is one of a bidirectional stream of this side's own.
    pub fn new_bi_stream(&self) -> (result: Result<Stream, Error>)
        ensures
            result matches Ok(stream) ==> stream.kind == StreamType::Bi && stream.owner
                == ConnectionOwner::Host && stream.spec_sends() && stream.spec_receives(),
    {
        self.new_stream(StreamType::Bi)
    }

    /// Closes the connection with an error code and a reason: what the
    /// task answered to [`Socket::close_request`], as [`closed_of`] takes
    /// it. A connection whose task has ended is closed already: a state
    /// error, whatever the code.
    pub fn close(&self, error_code: ApplicationError, reason: Option<String>) -> (result: Result<
        (),
        Error,
    >) {
        closed_of(call_close(&self.0, Socket::close_request(error_code, reason)))
    }
}

impl Stream {
    /// The handle to the task of a stream in the state given: one of the
    /// stream's kind and owner.
    pub fn of(channel: UnboundedSender<Request<StreamEvent, StreamReply>>, state: &StreamState) -> (handle:
        Stream)
        ensures
            handle == (Stream { channel, kind: state.kind, owner: state.owner }),
            handle.spec_sends() == state.spec_sends(),
            handle.spec_receives() == state.spec_receives(),
    {
        Stream { channel, kind: state.kind, owner: state.owner }
    }

    /// Whether the stream runs from the holder of the handle to the peer.
    pub open spec fn spec_sends(&self) -> bool {
        holds_send(self.kind, self.owner)
    }

    /// Whether the stream runs from the peer to the holder of the handle.
    pub open spec fn spec_receives(&self) -> bool {
        holds_recv(self.kind, self.owner)
    }

    /// Whether the stream runs from the holder of the handle to the peer.
    #[verifier::when_used_as_spec(spec_sends)]
    pub fn sends(&self) -> (held: bool)
        ensures
            held == self.spec_sends(),
    {
        match self.kind {
            StreamType::Bi => true,
            StreamType::Uni => match self.owner {
                ConnectionOwner::Host => true,
                ConnectionOwner::Peer => false,
            },
        }
    }

    /// Whether the stream runs from the peer to the holder of the handle.
    #[verifier::when_used_as_spec(spec_receives)]
    pub fn receives(&self) -> (held: bool)
        ensures
            held == self.spec_receives(),
    {
        match self.kind {
            StreamType::Bi => true,
            StreamType::Uni => match self.owner {
                ConnectionOwner::Host => false,
                ConnectionOwner::Peer => true,
            },
        }
    }

    /// The request that a read of up to `capacity` bytes under the
    /// deadline makes of this stream. On a stream that does not run
    /// towards the holder of the handle the read is turned down with a
    /// direction mismatch, whatever is asked for, and no request is made.
    pub fn read_request(&self, capacity: usize, timeout: Option<u64>) -> (request: Result<
        StreamEvent,
        Error,
    >)
        ensures
            request == if self.spec_receives() {
                Ok::<StreamEvent, Error>(StreamEvent::Read(capacity, timeout))
            } else {
                Err::<StreamEvent, Error>(Error(ErrorKind::DirectionMismatch))
            },
    {
        if self.receives() {
            Ok(StreamEvent::Read(capacity, timeout))
        } else {
            Err(Error(ErrorKind::DirectionMismatch))
        }
    }

    /// The request that a write of the bytes makes of this stream: all of
    /// the bytes, as they were given. On a stream that does not run
    /// towards the peer the write is turned down with a direction
    /// mismatch, whatever the bytes, and no request is made.
    pub fn write_request(&self, buffer: Vec<u8>) -> (request: Result<StreamEvent, Error>)
        ensures
            request == if self.spec_sends() {
                Ok::<StreamEvent, Error>(StreamEvent::Write(buffer))
            } else {
                Err::<StreamEvent, Error>(Error(ErrorKind::DirectionMismatch))
            },
    {
        if self.sends() {
            Ok(StreamEvent::Write(buffer))
        } else {
            Err(Error(ErrorKind::DirectionMismatch))
        }
    }

    /// The request that a close with the code makes of a stream. Whether
    /// the code can be encoded is for the task to say, after it has said
    /// whether the stream is closed already.
    pub fn close_request(error_code: ApplicationError) -> (request: StreamEvent)
        ensures
            request == StreamEvent::CloseStream(error_code),
    {
        StreamEvent::CloseStream(error_code)
    }

    /// Reads up to `capacity` bytes, no longer than the deadline in
    /// milliseconds if one is given: what the task answered to
    /// [`Stream::read_request`], as [`read_of`] takes it. Returns the
    /// number of bytes read and the buffer that holds them at its start:
    /// the buffer is as long as was asked for, and no more bytes are read
    /// than it holds. On a stream that does not run towards the holder of
    /// the handle, such as a unidirectional stream of its own, the read
    /// fails with a direction mismatch, whatever is asked for, and the
    /// task is not asked.
    pub fn read(&self, capacity: usize, timeout: Option<u64>) -> (result: Result<
        (usize, Vec<u8>),
        Error,
    >)
        ensures
            !self.spec_receives() ==> result == Err::<(usize, Vec<u8>), Error>(
                Error(ErrorKind::DirectionMismatch),
            ),
            result matches Ok((count, buffer)) ==> count <= capacity && buffer@.len() == capacity,
    {
        match self.read_request(capacity, timeout) {
            Ok(request) => read_of(call(&self.channel, request), capacity),
            Err(error) => Err(error),
        }
    }

    /// Writes all of the bytes: what the task answered to
    /// [`Stream::write_request`], as [`written_of`] takes it. On a stream
    /// that does not run towards the peer, such as a unidirectional stream
    /// that the peer opened, the write fails with a direction mismatch,
    /// whatever the bytes, and the task is not asked.
    pub fn write(&self, buffer: Vec<u8>) -> (result: Result<(), Error>)
        ensures
            !self.spec_sends() ==> result == Err::<(), Error>(
                Error(ErrorKind::DirectionMismatch),
            ),
    {
        match self.write_request(buffer) {
            Ok(request) => written_of(call(&self.channel, request)),
            Err(error) => Err(error),
        }
    }

    /// Closes the stream with an error code: what the task answered to
    /// [`Stream::close_request`], as [`stream_closed_of`] takes it. A
    /// stream whose task has ended is closed already: a state error,
    /// whatever the code.
    pub fn close_stream(&self, error_code: ApplicationError) -> (result: Result<(), Error>) {
        stream_closed_of(call_close(&self.channel, Stream::close_request(error_code)))
    }
}

} // verus!
