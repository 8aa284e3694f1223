//! The decisions of the runtime's tasks.
//!
//! A task of the runtime waits: for a request on its channel, for the
//! transport to finish what was asked of it, for a deadline. Between two
//! waits it decides. Each function here is one such decision: it takes what
//! the task was waiting for, changes the task's state, and says what is to
//! be done or answered next. The caller does the waiting.

use vstd::prelude::*;
use crate::config::{Configs, EndpointPlan};
use crate::error::{ApplicationError, Error, ErrorKind};
use crate::event::{reason_bytes, spec_reason_bytes, Event, NewSocketEvent, SocketEvent};
use crate::state::{SocketState, SocketStateLocal};
use crate::stream_state::StreamState;
use crate::types::{ConnectionOwner, QuicSocket, SocketAddr, SocketType, StreamType};

verus! {

/// A connection task: its configuration and its state.
#[derive(Debug, Clone)]
pub struct SocketRuntime {
    pub configs: Configs,
    pub state: SocketState,
}

/// What the runtime does with a request to open a socket.
#[derive(Debug)]
pub enum RuntimeStep {
    /// Set up an endpoint as the plan says and bind it, then report how
    /// the bind went with [`SocketRuntime::new`].
    Bind { role: SocketType, plan: EndpointPlan, configs: Configs },
    /// Answer the request with the error; no task is started.
    Reject(Error),
    /// End the runtime: no handle is left to send it a request.
    Stop,
}

/// Takes a request to the runtime, or the news that its channel closed
/// (`None`), and says what it does next: a socket is bound as its
/// configuration plans it, a configuration that lacks what the role needs
/// is rejected before anything is bound, and a runtime that no one can
/// ask any more ends.
pub fn run(event: Option<Event>) -> (step: RuntimeStep)
    ensures
        match event {
            Some(Event::OpenSocket(role, configs)) => match configs.socket_config.0.spec_plan(
                role,
            ) {
                Ok(plan) => step == (RuntimeStep::Bind { role, plan, configs }),
                Err(error) => step == RuntimeStep::Reject(error),
            },
            None => step == RuntimeStep::Stop,
        },
{
    match event {
        Some(Event::OpenSocket(role, configs)) => {
            match configs.socket_config.0.plan(role) {
                Ok(plan) => RuntimeStep::Bind { role, plan, configs },
                Err(error) => RuntimeStep::Reject(error),
            }
        },
        None => RuntimeStep::Stop,
    }
}

/// Which of its sources of events a connection task waits on.
#[derive(Debug, Clone, Copy, PartialEq, Eq, Structural)]
pub struct SocketWatch {
    /// The channel of requests from the task's handles.
    pub local: bool,
    /// The peer's unidirectional streams.
    pub uni_streams: bool,
    /// The peer's bidirectional streams.
    pub bi_streams: bool,
}

/// The sources that a connection task waits on in its state: its channel
/// until it is closed, and each of the peer's sequences while in place.
/// No order is set among them: whichever has an event first is served.
pub fn run_socket(socket: &SocketRuntime) -> (watch: SocketWatch)
    ensures
        watch == (SocketWatch {
            local: !socket.state.is_closed(),
            uni_streams: socket.state.peer.uni_streams,
            bi_streams: socket.state.peer.bi_streams,
        }),
{
    let local = match socket.state.local {
        SocketStateLocal::Closed { .. } => false,
        _ => true,
    };
    SocketWatch {
        local,
        uni_streams: socket.state.peer.uni_streams,
        bi_streams: socket.state.peer.bi_streams,
    }
}

impl SocketRuntime {
    /// The task of a socket of the role given, once the bind was tried. A
    /// configuration that lacks what the role needs, an address to bind to
    /// among it, gives no task, whatever is told of a bind: the error is
    /// that of the configuration. Else a server's task listens and a
    /// client's stands ready to connect where the bind went well, and
    /// where it failed there is no task, only a bind error.
    pub fn new(configs: Configs, role: SocketType, bound: bool) -> (result: Result<
        SocketRuntime,
        Error,
    >)
        ensures
            match configs.socket_config.0.spec_plan(role) {
                Err(error) => result matches Err(refusal) && refusal == error,
                Ok(_) => if bound {
                    &&& result matches Ok(socket)
                    &&& socket.configs == configs
                    &&& socket.state == SocketState::spec_bound(role, Ok(()))
                    &&& socket.state.wf()
                } else {
                    result matches Err(refusal) && refusal == Error(ErrorKind::Bind)
                },
            },
    {
        match configs.socket_config.0.plan(role) {
            Ok(_) => {},
            Err(error) => {
                return Err(error);
            },
        }
        let mut state = SocketState::new();
        let outcome = if bound {
            Ok(())
        } else {
            Err(Error(ErrorKind::Bind))
        };
        match state.bind(role, outcome) {
            Ok(_) => Ok(SocketRuntime { configs, state }),
            Err(error) => Err(error),
        }
    }
}

/// What a task of a socket without a connection does next.
#[derive(Debug)]
pub enum NewSocketStep {
    /// Wait for the next inbound connection, no longer than the deadline,
    /// then report what came with [`accept`].
    Accept { timeout: Option<u64> },
    /// Connect to the address under the server name, no longer than the
    /// deadline, then report what came with [`connect`].
    Connect { address: SocketAddr, server_name: String, timeout: Option<u64> },
    /// Close the endpoint with the code and the reason, answer the request
    /// with success, and end the task.
    Close { code: u64, reason: Vec<u8> },
    /// Answer the request with the error and go on.
    Reject(Error),
    /// No handle is left and the socket holds a live connection: close it
    /// with code 0 and no reason, and end the task.
    Shutdown,
    /// No handle is left and there is no connection to close: end the task.
    Stop,
}

/// What the transport reported of an accept.
#[derive(Debug, Clone, Copy, PartialEq, Eq, Structural)]
pub enum Arrival {
    /// A peer connected and the handshake is done.
    Connected,
    /// The deadline passed first.
    TimedOut,
    /// A peer tried to connect and the handshake failed.
    Refused,
    /// The endpoint takes no more connections.
    Ended,
}

/// What the transport reported of a connect.
#[derive(Debug, Clone, Copy, PartialEq, Eq, Structural)]
pub enum Dial {
    /// The handshake is done.
    Connected,
    /// The deadline passed first.
    TimedOut,
    /// The handshake failed.
    Refused,
}

/// The state of a socket without a connection after a request, or after its
/// channel closed (`None`).
pub open spec fn spec_new_socket_state(state: SocketState, event: Option<NewSocketEvent>) -> SocketState {
    match event {
        Some(NewSocketEvent::Accept(_)) => if state.local == (SocketStateLocal::Listening {
            incoming: true,
        }) {
            SocketState { local: SocketStateLocal::Listening { incoming: false }, ..state }
        } else {
            state
        },
        Some(NewSocketEvent::Connect(_, _)) => state,
        Some(NewSocketEvent::Close(code, _)) => if code.encodable() {
            state.spec_close(None)
        } else {
            state
        },
        None => state.spec_close(None),
    }
}

/// Whether a step is the one that the request calls for in the state given.
pub open spec fn spec_new_socket_step(
    socket: SocketRuntime,
    event: Option<NewSocketEvent>,
    step: NewSocketStep,
) -> bool {
    match event {
        Some(NewSocketEvent::Accept(timeout)) => if socket.state.local == (
        SocketStateLocal::Listening { incoming: true }) {
            step == (NewSocketStep::Accept { timeout })
        } else {
            step == NewSocketStep::Reject(Error(ErrorKind::State))
        },
        Some(NewSocketEvent::Connect(address, timeout)) => if socket.state.local is Connecting {
            &&& step matches NewSocketStep::Connect { address: to, server_name, timeout: within }
            &&& to == address
            &&& within == timeout
            &&& server_name@ == socket.configs.socket_config.0.server_name@
        } else {
            step == NewSocketStep::Reject(Error(ErrorKind::State))
        },
        Some(NewSocketEvent::Close(code, reason)) => if socket.state.is_closed() {
            step == NewSocketStep::Reject(Error(ErrorKind::State))
        } else if !code.encodable() {
            step == NewSocketStep::Reject(Error(ErrorKind::Config))
        } else {
            &&& step matches NewSocketStep::Close { code: number, reason: bytes }
            &&& number == code.number()
            &&& bytes@ == spec_reason_bytes(reason)
        },
        None => if socket.state.is_established() {
            step == NewSocketStep::Shutdown
        } else {
            step == NewSocketStep::Stop
        },
    }
}

/// Takes one request to a socket without a connection, or the news that
/// its channel closed, and says what the task does next.
///
/// An accept is admitted on a listening socket whose sequence of inbound
/// connections is in place, and takes that sequence out. A connect is
/// admitted on a client's bound socket. Either one on any other socket is
/// rejected with a state error, so no client ever accepts and no server
/// ever connects. A close is admitted on any socket that is not closed
/// yet, if its code can be encoded. When the last handle is gone a live
/// connection is closed before the task ends.
pub fn run_new_socket(socket: &mut SocketRuntime, event: Option<NewSocketEvent>) -> (step:
    NewSocketStep)
    ensures
        old(socket).state.wf() ==> final(socket).state.wf(),
        final(socket).configs == old(socket).configs,
        final(socket).state == spec_new_socket_state(old(socket).state, event),
        spec_new_socket_step(*old(socket), event, step),
{
    match event {
        Some(NewSocketEvent::Accept(timeout)) => {
            if socket.state.take_incoming() {
                NewSocketStep::Accept { timeout }
            } else {
                NewSocketStep::Reject(Error(ErrorKind::State))
            }
        },
        Some(NewSocketEvent::Connect(address, timeout)) => {
            match socket.state.local {
                SocketStateLocal::Connecting => {
                    let server_name = socket.configs.socket_config.0.server_name.clone();
                    NewSocketStep::Connect { address, server_name, timeout }
                },
                _ => NewSocketStep::Reject(Error(ErrorKind::State)),
            }
        },
        Some(NewSocketEvent::Close(code, reason)) => close_new(socket, code, reason),
        None => {
            let live = match socket.state.local {
                SocketStateLocal::Established => true,
                _ => false,
            };
            let _ = socket.state.close(None);
            if live {
                NewSocketStep::Shutdown
            } else {
                NewSocketStep::Stop
            }
        },
    }
}

/// Closes a socket that has no connection. A socket that is closed already
/// rejects the request with a state error, and a code too large to encode
/// is rejected as a configuration error; either way the socket stays as it
/// was.
pub fn close_new(socket: &mut SocketRuntime, application_error: ApplicationError, reason: Option<
    String,
>) -> (step: NewSocketStep)
    ensures
        old(socket).state.wf() ==> final(socket).state.wf(),
        final(socket).configs == old(socket).configs,
        final(socket).state == spec_new_socket_state(
            old(socket).state,
            Some(NewSocketEvent::Close(application_error, reason)),
        ),
        spec_new_socket_step(
            *old(socket),
            Some(NewSocketEvent::Close(application_error, reason)),
            step,
        ),
{
    match socket.state.local {
        SocketStateLocal::Closed { .. } => NewSocketStep::Reject(Error(ErrorKind::State)),
        _ => {
            match application_error.into() {
                Some(number) => {
                    let _ = socket.state.close(None);
                    NewSocketStep::Close { code: number, reason: reason_bytes(&reason) }
                },
                None => NewSocketStep::Reject(Error(ErrorKind::Config)),
            }
        },
    }
}

/// The state of a listening socket after the accept that it waited on has
/// ended.
pub open spec fn spec_accept_state(state: SocketState, arrival: Arrival) -> SocketState {
    if state.local == (SocketStateLocal::Listening { incoming: false }) {
        match arrival {
            Arrival::Ended => state.spec_close(Some(Error(ErrorKind::State))),
            _ => SocketState { local: SocketStateLocal::Listening { incoming: true }, ..state },
        }
    } else {
        state
    }
}

/// The answer to an accept: the state of the connection accepted, or the
/// error.
pub open spec fn spec_accept_reply(state: SocketState, arrival: Arrival) -> Result<
    SocketState,
    Error,
> {
    if state.local == (SocketStateLocal::Listening { incoming: false }) {
        match arrival {
            Arrival::Connected => Ok(SocketState::spec_established()),
            Arrival::TimedOut => Err(Error(ErrorKind::Timeout)),
            Arrival::Refused => Err(Error(ErrorKind::Handshake)),
            Arrival::Ended => Err(Error(ErrorKind::State)),
        }
    } else {
        Err(Error(ErrorKind::State))
    }
}

/// Ends an accept with what the transport reported.
///
/// A connection that arrived becomes a task of its own, with the
/// listener's configuration and a live connection; the listener goes on
/// listening. When the deadline passed, or a handshake failed, nothing is
/// lost: the sequence of inbound connections is back in place and the next
/// accept can wait on it. When the endpoint takes no more connections the
/// listener closes. On a socket that has no accept in flight the call is
/// a misuse and answered with a state error.
pub fn accept(socket: &mut SocketRuntime, arrival: Arrival) -> (reply: Result<SocketRuntime, Error>)
    ensures
        old(socket).state.wf() ==> final(socket).state.wf(),
        final(socket).configs == old(socket).configs,
        final(socket).state == spec_accept_state(old(socket).state, arrival),
        match reply {
            Ok(accepted) => spec_accept_reply(old(socket).state, arrival) == Ok::<
                SocketState,
                Error,
            >(accepted.state) && accepted.configs == old(socket).configs && accepted.state.wf(),
            Err(error) => spec_accept_reply(old(socket).state, arrival) == Err::<
                SocketState,
                Error,
            >(error),
        },
{
    let mut accepted = socket.state;
    if !socket.state.restore_incoming() {
        return Err(Error(ErrorKind::State));
    }
    match arrival {
        Arrival::Connected => {
            match accepted.transition_to_established() {
                Ok(_) => Ok(SocketRuntime { configs: socket.configs.share(), state: accepted }),
                Err(error) => Err(error),
            }
        },
        Arrival::TimedOut => Err(Error(ErrorKind::Timeout)),
        Arrival::Refused => Err(Error(ErrorKind::Handshake)),
        Arrival::Ended => {
            let _ = socket.state.close(Some(Error(ErrorKind::State)));
            Err(Error(ErrorKind::State))
        },
    }
}

/// The state of a client's socket after the connect that it waited on has
/// ended.
pub open spec fn spec_connect_state(state: SocketState, dial: Dial) -> SocketState {
    if state.local is Connecting {
        match dial {
            Dial::Connected => SocketState::spec_established(),
            Dial::TimedOut => state,
            Dial::Refused => state.spec_close(Some(Error(ErrorKind::Handshake))),
        }
    } else if state.local is Closed {
        state
    } else {
        SocketState::spec_failed(Error(ErrorKind::State))
    }
}

/// The answer to a connect.
pub open spec fn spec_connect_reply(state: SocketState, dial: Dial) -> Result<(), Error> {
    if state.local is Connecting {
        match dial {
            Dial::Connected => Ok(()),
            Dial::TimedOut => Err(Error(ErrorKind::Timeout)),
            Dial::Refused => Err(Error(ErrorKind::Handshake)),
        }
    } else {
        Err(Error(ErrorKind::State))
    }
}

/// Ends a connect with what the transport reported.
///
/// When the handshake is done the socket itself holds the connection: no
/// new task is made. When the deadline passed the socket is as before and
/// may connect again. A handshake that failed closes the socket. On a
/// socket that is not a client's bound socket a connection cannot be taken
/// up: the call is answered with a state error, and closes the socket
/// unless it was closed.
pub fn connect(socket: &mut SocketRuntime, dial: Dial) -> (reply: Result<(), Error>)
    ensures
        old(socket).state.wf() ==> final(socket).state.wf(),
        final(socket).configs == old(socket).configs,
        final(socket).state == spec_connect_state(old(socket).state, dial),
        reply == spec_connect_reply(old(socket).state, dial),
{
    match socket.state.local {
        SocketStateLocal::Connecting => {
            match dial {
                Dial::Connected => socket.state.transition_to_established(),
                Dial::TimedOut => Err(Error(ErrorKind::Timeout)),
                Dial::Refused => {
                    let _ = socket.state.close(Some(Error(ErrorKind::Handshake)));
                    Err(Error(ErrorKind::Handshake))
                },
            }
        },
        SocketStateLocal::Listening { .. } => {
            let _ = socket.state.close(Some(Error(ErrorKind::State)));
            Err(Error(ErrorKind::State))
        },
        _ => socket.state.transition_to_established(),
    }
}

/// A stream task: its configuration and its state.
#[derive(Debug, Clone)]
pub struct StreamRuntime {
    pub configs: Configs,
    pub state: StreamState,
}

impl StreamRuntime {
    /// A stream task in the state given, under a connection's configuration.
    pub fn new(state: StreamState, configs: Configs) -> (stream: StreamRuntime)
        ensures
            stream.state == state,
            stream.configs == configs,
    {
        StreamRuntime { configs, state }
    }
}

/// What a task of a socket with a live connection does next.
#[derive(Debug)]
pub enum SocketStep {
    /// Ask the transport for a stream of the kind that `stream` is pending
    /// on, start a task for `stream`, and answer the request with a handle
    /// to that task.
    OpenStream { stream: StreamRuntime },
    /// Close the connection with the code and the reason, answer the
    /// request with success, and end the task.
    Close { code: u64, reason: Vec<u8> },
    /// Answer the request with the error and go on.
    Reject(Error),
    /// No handle is left: close the connection with code 0 and no reason,
    /// and end the task.
    Shutdown,
    /// No handle is left and there is no connection to close: end the task.
    Stop,
}

/// The state of a socket after a request to its connection, or after its
/// channel closed (`None`).
pub open spec fn spec_socket_state(state: SocketState, event: Option<SocketEvent>) -> SocketState {
    match event {
        Some(SocketEvent::Close(code, _)) => if code.encodable() {
            state.spec_close(None)
        } else {
            state
        },
        Some(SocketEvent::OpenBiStream) => state,
        Some(SocketEvent::OpenUniStream) => state,
        None => state.spec_close(None),
    }
}

/// Whether a step opens a stream of the kind given on the socket given.
pub open spec fn spec_opens(socket: SocketRuntime, kind: StreamType, step: SocketStep) -> bool {
    if socket.state.is_established() {
        &&& step matches SocketStep::OpenStream { stream }
        &&& stream.state == StreamState::spec_pending(kind)
        &&& stream.configs == socket.configs
    } else {
        step == SocketStep::Reject(Error(ErrorKind::State))
    }
}

/// Whether a step is the one that the request calls for on the socket
/// given.
pub open spec fn spec_socket_step(socket: SocketRuntime, event: Option<SocketEvent>, step: SocketStep) -> bool {
    match event {
        Some(SocketEvent::Close(code, reason)) => if socket.state.is_closed() {
            step == SocketStep::Reject(Error(ErrorKind::State))
        } else if !code.encodable() {
            step == SocketStep::Reject(Error(ErrorKind::Config))
        } else {
            &&& step matches SocketStep::Close { code: number, reason: bytes }
            &&& number == code.number()
            &&& bytes@ == spec_reason_bytes(reason)
        },
        Some(SocketEvent::OpenBiStream) => spec_opens(socket, StreamType::Bi, step),
        Some(SocketEvent::OpenUniStream) => spec_opens(socket, StreamType::Uni, step),
        None => if socket.state.is_established() {
            step == SocketStep::Shutdown
        } else {
            step == SocketStep::Stop
        },
    }
}

/// Takes one request to a socket with a connection, or the news that its
/// channel closed, and says what the task does next.
///
/// A stream can be opened on a live connection only; before or after, the
/// request is rejected with a state error. When the last handle is gone
/// a live connection is closed before the task ends.
pub fn local_socket_event(socket: &mut SocketRuntime, event: Option<SocketEvent>) -> (step:
    SocketStep)
    ensures
        old(socket).state.wf() ==> final(socket).state.wf(),
        final(socket).configs == old(socket).configs,
        final(socket).state == spec_socket_state(old(socket).state, event),
        spec_socket_step(*old(socket), event, step),
{
    match event {
        Some(SocketEvent::Close(code, reason)) => close(socket, code, reason),
        Some(SocketEvent::OpenBiStream) => {
            match open_bi_stream(socket) {
                Ok(stream) => SocketStep::OpenStream { stream },
                Err(error) => SocketStep::Reject(error),
            }
        },
        Some(SocketEvent::OpenUniStream) => {
            match open_uni_stream(socket) {
                Ok(stream) => SocketStep::OpenStream { stream },
                Err(error) => SocketStep::Reject(error),
            }
        },
        None => {
            match socket.state.local {
                SocketStateLocal::Established => {
                    let _ = socket.state.close(None);
                    SocketStep::Shutdown
                },
                _ => {
                    let _ = socket.state.close(None);
                    SocketStep::Stop
                },
            }
        },
    }
}

/// Closes a socket. A socket that is closed already rejects the request
/// with a state error, and a code too large to encode is rejected as a
/// configuration error; either way the socket stays as it was.
pub fn close(socket: &mut SocketRuntime, application_error: ApplicationError, reason: Option<
    String,
>) -> (step: SocketStep)
    ensures
        old(socket).state.wf() ==> final(socket).state.wf(),
        final(socket).configs == old(socket).configs,
        final(socket).state == spec_socket_state(
            old(socket).state,
            Some(SocketEvent::Close(application_error, reason)),
        ),
        spec_socket_step(*old(socket), Some(SocketEvent::Close(application_error, reason)), step),
{
    match socket.state.local {
        SocketStateLocal::Closed { .. } => SocketStep::Reject(Error(ErrorKind::State)),
        _ => {
            match application_error.into() {
                Some(number) => {
                    let _ = socket.state.close(None);
                    SocketStep::Close { code: number, reason: reason_bytes(&reason) }
                },
                None => SocketStep::Reject(Error(ErrorKind::Config)),
            }
        },
    }
}

/// The task of a stream that this side is about to open on the socket.
fn open_stream(socket: &SocketRuntime, kind: StreamType) -> (result: Result<StreamRuntime, Error>)
    ensures
        match result {
            Ok(stream) => socket.state.is_established() && stream.state
                == StreamState::spec_pending(kind) && stream.configs == socket.configs,
            Err(error) => !socket.state.is_established() && error == Error(ErrorKind::State),
        },
{
    match socket.state.local {
        SocketStateLocal::Established => Ok(
            StreamRuntime::new(StreamState::pending(kind), socket.configs.share()),
        ),
        _ => Err(Error(ErrorKind::State)),
    }
}

/// The task of a bidirectional stream that this side is about to open. Only
/// a live connection can open one; any other socket answers with a state
/// error.
pub fn open_bi_stream(socket: &SocketRuntime) -> (result: Result<StreamRuntime, Error>)
    ensures
        match result {
            Ok(stream) => socket.state.is_established() && stream.state
                == StreamState::spec_pending(StreamType::Bi) && stream.configs == socket.configs,
            Err(error) => !socket.state.is_established() && error == Error(ErrorKind::State),
        },
{
    open_stream(socket, StreamType::Bi)
}

/// The task of a unidirectional stream that this side is about to open.
/// Only a live connection can open one; any other socket answers with a
/// state error.
pub fn open_uni_stream(socket: &SocketRuntime) -> (result: Result<StreamRuntime, Error>)
    ensures
        match result {
            Ok(stream) => socket.state.is_established() && stream.state
                == StreamState::spec_pending(StreamType::Uni) && stream.configs == socket.configs,
            Err(error) => !socket.state.is_established() && error == Error(ErrorKind::State),
        },
{
    open_stream(socket, StreamType::Uni)
}

/// What the task that watches the peer's streams does next.
#[derive(Debug)]
pub enum PeerStep {
    /// Start a task for the stream and tell `target` of it, if there is
    /// one; a target that is missing or cannot be reached is reported and
    /// changes nothing. Then go on watching.
    Announce { stream: StreamRuntime, target: Result<QuicSocket, Error> },
    /// The sequence that was waited on has ended; go on watching the other.
    Watch,
    /// The sequence that was waited on has failed with the error; go on
    /// watching the other, if it is still there.
    Failed(Error),
    /// No stream of the peer can arrive any more: stop watching.
    Closed,
}

/// The state of a stream that the peer opened.
pub open spec fn spec_peer_stream(kind: StreamType) -> StreamState {
    StreamState::spec_open(kind, ConnectionOwner::Peer)
}

/// What waiting on one of the peer's two sequences came to: nothing where
/// the sequence is absent or has ended, else the stream's state or the
/// error.
pub open spec fn spec_peer_arrival(
    kind: StreamType,
    present: bool,
    arrival: Option<Result<(), Error>>,
) -> Option<Result<StreamState, Error>> {
    if !present {
        None
    } else {
        match arrival {
            Some(Ok(_)) => Some(Ok(spec_peer_stream(kind))),
            Some(Err(error)) => Some(Err(error)),
            None => None,
        }
    }
}

fn peer_stream(kind: StreamType, present: bool, arrival: Option<Result<(), Error>>) -> (found:
    Option<Result<StreamState, Error>>)
    ensures
        found == spec_peer_arrival(kind, present, arrival),
{
    if !present {
        return None;
    }
    match arrival {
        Some(Ok(_)) => Some(Ok(StreamState::open(kind, ConnectionOwner::Peer))),
        Some(Err(error)) => Some(Err(error)),
        None => None,
    }
}

/// What waiting on the peer's unidirectional streams came to. A stream
/// that arrived is one that this side can only read.
pub fn peer_uni_stream(present: bool, arrival: Option<Result<(), Error>>) -> (found: Option<
    Result<StreamState, Error>,
>)
    ensures
        found == spec_peer_arrival(StreamType::Uni, present, arrival),
        found matches Some(Ok(state)) ==> state.can_recv() && !state.can_send(),
{
    peer_stream(StreamType::Uni, present, arrival)
}

/// What waiting on the peer's bidirectional streams came to. A stream that
/// arrived is one that this side can read and write.
pub fn peer_bi_stream(present: bool, arrival: Option<Result<(), Error>>) -> (found: Option<
    Result<StreamState, Error>,
>)
    ensures
        found == spec_peer_arrival(StreamType::Bi, present, arrival),
        found matches Some(Ok(state)) ==> state.can_recv() && state.can_send(),
{
    peer_stream(StreamType::Bi, present, arrival)
}

/// Whether the sequence of the kind given is in place.
pub open spec fn spec_watched(state: SocketState, kind: StreamType) -> bool {
    match kind {
        StreamType::Uni => state.peer.uni_streams,
        StreamType::Bi => state.peer.bi_streams,
    }
}

/// The state after the sequence of the kind given has ended.
pub open spec fn spec_unwatched(state: SocketState, kind: StreamType) -> SocketState {
    match kind {
        StreamType::Uni => SocketState {
            peer: crate::state::SocketStatePeer { uni_streams: false, ..state.peer },
            ..state
        },
        StreamType::Bi => SocketState {
            peer: crate::state::SocketStatePeer { bi_streams: false, ..state.peer },
            ..state
        },
    }
}

/// The state of a socket after a wait on one of the peer's sequences: a
/// stream that arrived changes nothing, and a sequence that ended or
/// failed is gone.
pub open spec fn spec_peer_state(
    state: SocketState,
    kind: StreamType,
    arrival: Option<Result<(), Error>>,
) -> SocketState {
    match spec_peer_arrival(kind, spec_watched(state, kind), arrival) {
        Some(Ok(_)) => state,
        _ => spec_unwatched(state, kind),
    }
}

/// Whether a step is the one that a wait on one of the peer's sequences
/// calls for.
pub open spec fn spec_peer_step(
    socket: SocketRuntime,
    kind: StreamType,
    arrival: Option<Result<(), Error>>,
    step: PeerStep,
) -> bool {
    let after = spec_peer_state(socket.state, kind, arrival);
    match spec_peer_arrival(kind, spec_watched(socket.state, kind), arrival) {
        Some(Ok(state)) => {
            &&& step matches PeerStep::Announce { stream, target }
            &&& stream.state == state
            &&& stream.configs == socket.configs
            &&& target == socket.configs.socket_config.0.spec_send()
        },
        Some(Err(error)) => step == PeerStep::Failed(error),
        None => if after.peer.uni_streams || after.peer.bi_streams {
            step == PeerStep::Watch
        } else {
            step == PeerStep::Closed
        },
    }
}

/// Takes what a wait on one of the peer's two sequences of streams came
/// to, and says what the watching task does next.
///
/// A stream that arrived gets a task of its own and is announced to the
/// owner that the configuration names. Whether that owner is there, and
/// whether the announcement reaches it, changes nothing for the
/// connection.
pub fn peer_socket_event(
    socket: &mut SocketRuntime,
    kind: StreamType,
    arrival: Option<Result<(), Error>>,
) -> (step: PeerStep)
    ensures
        old(socket).state.wf() ==> final(socket).state.wf(),
        final(socket).configs == old(socket).configs,
        final(socket).state == spec_peer_state(old(socket).state, kind, arrival),
        final(socket).state.local == old(socket).state.local,
        spec_peer_step(*old(socket), kind, arrival, step),
{
    let found = match kind {
        StreamType::Uni => peer_uni_stream(socket.state.peer.uni_streams, arrival),
        StreamType::Bi => peer_bi_stream(socket.state.peer.bi_streams, arrival),
    };
    match found {
        Some(Ok(state)) => {
            let stream = StreamRuntime::new(state, socket.configs.share());
            let target = announce_stream(&stream);
            PeerStep::Announce { stream, target }
        },
        Some(Err(error)) => {
            socket.state.peer_streams_ended(kind);
            PeerStep::Failed(error)
        },
        None => {
            socket.state.peer_streams_ended(kind);
            if socket.state.peer.uni_streams || socket.state.peer.bi_streams {
                PeerStep::Watch
            } else {
                PeerStep::Closed
            }
        },
    }
}

/// The owner that is to be told of a stream the peer opened: the one that
/// the connection's configuration names. Without one the announcement
/// cannot be made, which is a configuration error.
pub fn announce_stream(stream: &StreamRuntime) -> (target: Result<QuicSocket, Error>)
    ensures
        target == stream.configs.socket_config.0.spec_send(),
{
    stream.configs.socket_config.0.send()
}

} // verus!
