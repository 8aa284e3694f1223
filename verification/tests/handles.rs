use std::collections::VecDeque;
use std::sync::{Arc, Mutex};

use centaurus::api;
use centaurus::certs::{Certificates, PrivateKey};
use centaurus::config::{BeamSocket, BeamStream, Configs, SocketRef, StreamRef};
use centaurus::conn::{
    closed_new_of, closed_of, handle, new_socket_of_role, open_request, read_of, settle,
    settle_close, socket_of, stream_closed_of, stream_of_kind, written_of, NewSocket, NewSocketReply, Request, Runtime, Socket, SocketReply, Started,
    Stream, StreamReply,
};
use centaurus::error::{ApplicationError, Error, ErrorKind};
use centaurus::event::{Event, NewSocketEvent, SocketEvent, StreamEvent};
use centaurus::notify::{notify, Notify};
use centaurus::options::QuicOptions;
use centaurus::runtime::StreamRuntime;
use centaurus::stream::{local_stream_event, read, ReadOutcome, StreamStep, WriteOutcome};
use centaurus::state::SocketState;
use centaurus::stream_state::{StreamState, StreamStateLocal};
use centaurus::types::{ConnectionOwner, IpAddr, QuicSocket, SocketAddr, SocketType, StreamType};
use tokio::sync::mpsc::{unbounded_channel, UnboundedReceiver};

const CHANNEL: Error = Error(ErrorKind::Channel);
const CONFIG: Error = Error(ErrorKind::Config);

type Pipe = Arc<Mutex<VecDeque<u8>>>;

fn socket_config(bind: bool) -> BeamSocket {
    BeamSocket {
        socket_pid: Some(QuicSocket::Pid(1)),
        bind_address: if bind {
            Some(SocketAddr { ip: IpAddr::V4(127, 0, 0, 1), port: 0 })
        } else {
            None
        },
        server_name: "localhost".to_string(),
        options: QuicOptions { timeout: None },
        private_key: Some(PrivateKey("key.der".to_string())),
        certificates: Some(Certificates("cert.der".to_string())),
    }
}

type StreamRequests = tokio::sync::mpsc::UnboundedSender<Request<StreamEvent, StreamReply>>;

type SocketRequests = tokio::sync::mpsc::UnboundedSender<Request<NewSocketEvent, NewSocketReply>>;

/// A handle to a socket of the role given that has no connection yet.
fn new_socket(channel: SocketRequests, role: SocketType) -> NewSocket {
    NewSocket { channel, role, connection: None }
}

/// A handle to a stream of the kind given that its holder opened.
fn own(channel: StreamRequests, kind: StreamType) -> Stream {
    Stream { channel, kind, owner: ConnectionOwner::Host }
}

fn stream_config() -> BeamStream {
    BeamStream { stream_pid: None, stream_type: StreamType::Bi, options: QuicOptions { timeout: None } }
}

fn configs() -> Configs {
    Configs {
        socket_config: SocketRef::new(socket_config(true)),
        stream_config: StreamRef::new(stream_config()),
    }
}

/// A stream task over two pipes in memory: what is written goes into
/// `outbound`, and what is read comes out of `inbound`.
async fn stream_task(
    mut requests: UnboundedReceiver<Request<StreamEvent, StreamReply>>,
    mut stream: StreamRuntime,
    outbound: Pipe,
    inbound: Pipe,
    last: Arc<Mutex<Option<StreamStateLocal>>>,
) {
    loop {
        let request = requests.recv().await;
        let (event, responder) = match request {
            Some(request) => (Some(request.event), Some(request.responder)),
            None => (None, None),
        };
        let step = local_stream_event(&mut stream, event);
        *last.lock().unwrap() = Some(stream.state.local);
        let reply = match step {
            StreamStep::Read { capacity, .. } => {
                let arrived: Vec<u8> = {
                    let mut pipe = inbound.lock().unwrap();
                    let count = capacity.min(pipe.len());
                    pipe.drain(..count).collect()
                };
                let outcome = if arrived.is_empty() {
                    ReadOutcome::TimedOut
                } else {
                    ReadOutcome::Data(arrived)
                };
                read(&mut stream, capacity, outcome)
                    .map(|(count, buffer)| StreamReply::Read(count, buffer))
            },
            StreamStep::Write { bytes } => {
                outbound.lock().unwrap().extend(bytes);
                centaurus::stream::write(&stream, WriteOutcome::Written).map(|_| StreamReply::Written)
            },
            StreamStep::Close { .. } => {
                let _ = responder.unwrap().send(Ok(StreamReply::Closed));
                return;
            },
            StreamStep::Reject(error) => Err(error),
            StreamStep::Stop => return,
        };
        let _ = responder.unwrap().send(reply);
    }
}

fn spawn_stream(
    runtime: &tokio::runtime::Runtime,
    state: StreamState,
    outbound: &Pipe,
    inbound: &Pipe,
) -> (Stream, Arc<Mutex<Option<StreamStateLocal>>>) {
    let (sender, receiver) = unbounded_channel();
    let last = Arc::new(Mutex::new(None));
    runtime.spawn(stream_task(
        receiver,
        StreamRuntime::new(state, configs()),
        outbound.clone(),
        inbound.clone(),
        last.clone(),
    ));
    (Stream::of(sender, &state), last)
}

#[test]
fn thread_is_given_out_once() {
    let (sender, mut receiver) = unbounded_channel();
    let runtime = Runtime(sender);
    let mut thread = Some("pool");
    assert!(matches!(handle(&mut thread, &runtime), Started::Thread("pool")));
    assert_eq!(thread, None);
    for _ in 0..2 {
        let shared = match handle(&mut thread, &runtime) {
            Started::Runtime(shared) => shared,
            Started::Thread(_) => panic!("the thread was given out before"),
        };
        assert_eq!(thread, None);
        drop(runtime.share());
        let (responder, _answers) = std::sync::mpsc::channel();
        let request = Request {
            event: Event::OpenSocket(SocketType::Client, configs()),
            responder,
        };
        assert!(shared.0.send(request).is_ok());
        assert!(receiver.try_recv().is_ok());
    }
}

#[test]
fn settle_collapses_channel_failures() {
    assert_eq!(settle::<u8>(false, None), Err(CHANNEL));
    assert_eq!(settle(false, Some(Ok(1u8))), Err(CHANNEL));
    assert_eq!(settle::<u8>(true, None), Err(CHANNEL));
    assert_eq!(settle(true, Some(Ok(1u8))), Ok(1));
    assert_eq!(
        settle::<u8>(true, Some(Err(Error(ErrorKind::Timeout)))),
        Err(Error(ErrorKind::Timeout))
    );
}

#[test]
fn close_that_cannot_be_sent_is_a_state_error() {
    assert_eq!(settle_close::<u8>(false, None), Err(Error(ErrorKind::State)));
    assert_eq!(settle_close(false, Some(Ok(1u8))), Err(Error(ErrorKind::State)));
    assert_eq!(settle_close::<u8>(true, None), Err(Error(ErrorKind::State)));
    assert_eq!(settle_close(true, Some(Ok(1u8))), Ok(1));
    assert_eq!(settle_close::<u8>(true, Some(Err(CONFIG))), Err(CONFIG));
}

#[test]
fn answers_of_the_wrong_kind_are_channel_errors() {
    let (socket, _keep) = unbounded_channel();
    let (stream, _keep_too) = unbounded_channel();
    assert!(socket_of(Ok(NewSocketReply::Socket(Socket(socket.clone())))).is_ok());
    assert_eq!(socket_of(Ok(NewSocketReply::Closed)).err(), Some(CHANNEL));
    assert_eq!(socket_of(Err(Error(ErrorKind::State))).err(), Some(Error(ErrorKind::State)));
    assert_eq!(closed_new_of(Ok(NewSocketReply::Closed)), Ok(()));
    assert_eq!(closed_new_of(Ok(NewSocketReply::Socket(Socket(socket)))), Err(CHANNEL));
    let opened = Ok(SocketReply::Stream(own(stream.clone(), StreamType::Bi)));
    assert!(stream_of_kind(opened, StreamType::Bi).is_ok());
    assert_eq!(stream_of_kind(Ok(SocketReply::Closed), StreamType::Bi).err(), Some(CHANNEL));
    assert_eq!(closed_of(Ok(SocketReply::Closed)), Ok(()));
    assert_eq!(closed_of(Ok(SocketReply::Stream(own(stream, StreamType::Bi)))), Err(CHANNEL));
    assert_eq!(read_of(Ok(StreamReply::Read(1, vec![7])), 1), Ok((1, vec![7])));
    assert_eq!(read_of(Ok(StreamReply::Read(0, vec![0, 0])), 2), Ok((0, vec![0, 0])));
    assert_eq!(read_of(Ok(StreamReply::Read(2, vec![7])), 1), Err(CHANNEL));
    assert_eq!(read_of(Ok(StreamReply::Read(1, vec![7])), 2), Err(CHANNEL));
    assert_eq!(read_of(Ok(StreamReply::Read(1, vec![7, 8])), 1), Err(CHANNEL));
    assert_eq!(read_of(Ok(StreamReply::Written), 1), Err(CHANNEL));
    assert_eq!(read_of(Err(CONFIG), 1), Err(CONFIG));
    assert_eq!(written_of(Ok(StreamReply::Written)), Ok(()));
    assert_eq!(written_of(Ok(StreamReply::Closed)), Err(CHANNEL));
    assert_eq!(stream_closed_of(Ok(StreamReply::Closed)), Ok(()));
    assert_eq!(stream_closed_of(Ok(StreamReply::Read(0, vec![]))), Err(CHANNEL));
    assert_eq!(
        stream_closed_of(Err(Error(ErrorKind::Timeout))),
        Err(Error(ErrorKind::Timeout))
    );
}

#[test]
fn dead_runtime_is_a_channel_error() {
    let (sender, receiver) = unbounded_channel();
    drop(receiver);
    let runtime = Runtime(sender);
    let opened = NewSocket::new(
        &runtime,
        SocketType::Server,
        SocketRef::new(socket_config(true)),
        StreamRef::new(stream_config()),
    );
    assert_eq!(opened.err(), Some(CHANNEL));
    assert_eq!(api::listen(&runtime, socket_config(true), stream_config()).err(), Some(CHANNEL));
}

#[test]
fn broken_configuration_never_reaches_the_runtime() {
    let (sender, mut receiver) = unbounded_channel();
    let runtime = Runtime(sender);
    assert_eq!(api::listen(&runtime, socket_config(false), stream_config()).err(), Some(CONFIG));
    let address = SocketAddr { ip: IpAddr::V4(127, 0, 0, 1), port: 4433 };
    assert_eq!(
        api::connect(&runtime, socket_config(false), stream_config(), address, Some(100)).err(),
        Some(CONFIG)
    );
    assert!(receiver.try_recv().is_err());
}

#[test]
fn dropped_responder_is_a_channel_error() {
    let tasks = tokio::runtime::Runtime::new().unwrap();
    let (sender, mut receiver) = unbounded_channel::<Request<NewSocketEvent, NewSocketReply>>();
    tasks.spawn(async move {
        while let Some(request) = receiver.recv().await {
            drop(request);
        }
    });
    let socket = new_socket(sender, SocketType::Server);
    assert_eq!(socket.accept(Some(1)).err(), Some(CHANNEL));
    assert_eq!(api::accept(&socket, None).err(), Some(CHANNEL));
    assert_eq!(socket.close(ApplicationError::Error(0), None), Err(Error(ErrorKind::State)));
}

#[test]
fn requests_carry_what_was_asked() {
    let tasks = tokio::runtime::Runtime::new().unwrap();
    let (sender, mut receiver) = unbounded_channel::<Request<NewSocketEvent, NewSocketReply>>();
    let seen = Arc::new(Mutex::new(Vec::new()));
    let log = seen.clone();
    tasks.spawn(async move {
        while let Some(request) = receiver.recv().await {
            log.lock().unwrap().push(format!("{:?}", request.event));
            let (socket, _receiver) = unbounded_channel();
            let reply = match request.event {
                NewSocketEvent::Close(..) => NewSocketReply::Closed,
                _ => NewSocketReply::Socket(Socket(socket)),
            };
            let _ = request.responder.send(Ok(reply));
        }
    });
    let socket = new_socket(sender.clone(), SocketType::Server);
    let mut client = new_socket(sender, SocketType::Client);
    let address = SocketAddr { ip: IpAddr::V4(10, 0, 0, 1), port: 4433 };
    assert!(socket.accept(Some(1)).is_ok());
    assert_eq!(client.connect(address, None), Ok(()));
    assert!(client.connection.is_some());
    assert_eq!(socket.close(ApplicationError::Error(2), Some("bye".to_string())), Ok(()));
    assert_eq!(socket.close(ApplicationError::LargeError(u64::MAX), None), Ok(()));
    assert_eq!(
        *seen.lock().unwrap(),
        vec![
            "Accept(Some(1))".to_string(),
            "Connect(SocketAddr { ip: V4(10, 0, 0, 1), port: 4433 }, None)".to_string(),
            "Close(Error(2), Some(\"bye\"))".to_string(),
            "Close(LargeError(18446744073709551615), None)".to_string(),
        ]
    );
}

#[test]
fn requests_are_made_as_asked() {
    let (sender, _receiver) = unbounded_channel();
    let server = new_socket(sender.clone(), SocketType::Server);
    let client = new_socket(sender, SocketType::Client);
    let address = SocketAddr { ip: IpAddr::V4(10, 0, 0, 1), port: 4433 };
    let state = Error(ErrorKind::State);
    let shown = |request: &dyn std::fmt::Debug| format!("{:?}", request);

    assert_eq!(shown(&server.accept_request(Some(7))), "Ok(Accept(Some(7)))");
    assert_eq!(client.accept_request(Some(7)).err(), Some(state));
    assert_eq!(
        shown(&client.connect_request(address, None)),
        "Ok(Connect(SocketAddr { ip: V4(10, 0, 0, 1), port: 4433 }, None))"
    );
    assert_eq!(server.connect_request(address, None).err(), Some(state));
    assert_eq!(
        shown(&server.close_request(ApplicationError::LargeError(u64::MAX), None)),
        "Socket(Close(LargeError(18446744073709551615), None))"
    );
    let (live, _live_requests) = unbounded_channel();
    let connected = NewSocket { connection: Some(Socket(live)), ..client.clone() };
    assert_eq!(
        shown(&connected.close_request(ApplicationError::Error(1), Some("x".to_string()))),
        "Connection(Close(Error(1), Some(\"x\")))"
    );
    assert_eq!(shown(&Socket::stream_request(StreamType::Uni)), "OpenUniStream");
    assert_eq!(shown(&Socket::stream_request(StreamType::Bi)), "OpenBiStream");
    assert_eq!(
        shown(&Socket::close_request(ApplicationError::Error(3), Some("bye".to_string()))),
        "Close(Error(3), Some(\"bye\"))"
    );

    let (channel, _requests) = unbounded_channel();
    let ours = own(channel.clone(), StreamType::Uni);
    let theirs = Stream { channel, kind: StreamType::Uni, owner: ConnectionOwner::Peer };
    let mismatch = Error(ErrorKind::DirectionMismatch);
    assert_eq!(shown(&theirs.read_request(4, Some(9))), "Ok(Read(4, Some(9)))");
    assert_eq!(ours.read_request(4, Some(9)).err(), Some(mismatch));
    assert_eq!(shown(&ours.write_request(vec![1, 2])), "Ok(Write([1, 2]))");
    assert_eq!(theirs.write_request(vec![1, 2]).err(), Some(mismatch));
    assert_eq!(
        shown(&Stream::close_request(ApplicationError::Error(5))),
        "CloseStream(Error(5))"
    );

    let opened = open_request(
        SocketType::Server,
        SocketRef::new(socket_config(true)),
        StreamRef::new(stream_config()),
    );
    match opened {
        Ok(Event::OpenSocket(role, configs)) => {
            assert_eq!(role, SocketType::Server);
            assert_eq!(configs.socket_config.0.server_name, "localhost");
            assert_eq!(configs.stream_config.0.stream_type, StreamType::Bi);
        },
        Err(error) => panic!("{:?}", error),
    }
    let broken = open_request(
        SocketType::Client,
        SocketRef::new(socket_config(false)),
        StreamRef::new(stream_config()),
    );
    assert_eq!(broken.err(), Some(CONFIG));
}

#[test]
fn handles_are_made_from_the_state_of_their_task() {
    let (sender, _receiver) = unbounded_channel();
    let mut state = SocketState::new();
    assert!(NewSocket::of(sender.clone(), &state).is_none());
    assert_eq!(state.bind(SocketType::Server, Ok(())), Ok(()));
    assert_eq!(state.role(), Some(SocketType::Server));
    let server = NewSocket::of(sender.clone(), &state).unwrap();
    assert_eq!(server.role, SocketType::Server);
    assert!(server.connection.is_none());
    assert!(state.take_incoming());
    assert_eq!(NewSocket::of(sender.clone(), &state).unwrap().role, SocketType::Server);

    let mut state = SocketState::new();
    assert_eq!(state.bind(SocketType::Client, Ok(())), Ok(()));
    assert_eq!(NewSocket::of(sender.clone(), &state).unwrap().role, SocketType::Client);
    assert_eq!(state.transition_to_established(), Ok(()));
    assert_eq!(state.role(), None);
    assert!(NewSocket::of(sender.clone(), &state).is_none());
    assert_eq!(state.close(None), Ok(()));
    assert!(NewSocket::of(sender, &state).is_none());

    let (channel, _requests) = unbounded_channel();
    for kind in [StreamType::Uni, StreamType::Bi] {
        for owner in [ConnectionOwner::Host, ConnectionOwner::Peer] {
            let state = StreamState::open(kind, owner);
            let handle = Stream::of(channel.clone(), &state);
            assert_eq!((handle.kind, handle.owner), (kind, owner));
            assert_eq!((handle.sends(), handle.receives()), (state.sends(), state.receives()));
        }
        let pending = Stream::of(channel.clone(), &StreamState::pending(kind));
        assert_eq!((pending.kind, pending.owner), (kind, ConnectionOwner::Host));
    }
}

#[test]
fn close_goes_to_the_connection_once_there_is_one() {
    let tasks = tokio::runtime::Runtime::new().unwrap();
    let (sender, mut own_requests) = unbounded_channel();
    let (live, mut requests) = unbounded_channel::<Request<SocketEvent, SocketReply>>();
    let seen = Arc::new(Mutex::new(Vec::new()));
    let log = seen.clone();
    tasks.spawn(async move {
        while let Some(request) = requests.recv().await {
            log.lock().unwrap().push(format!("{:?}", request.event));
            let _ = request.responder.send(Ok(SocketReply::Closed));
        }
    });
    let mut client = new_socket(sender, SocketType::Client);
    assert_eq!(client.connected(Ok(Socket(live))), Ok(()));
    assert_eq!(client.close(ApplicationError::Error(4), Some("bye".to_string())), Ok(()));
    assert_eq!(*seen.lock().unwrap(), vec!["Close(Error(4), Some(\"bye\"))".to_string()]);
    assert!(own_requests.try_recv().is_err());
}

#[test]
fn connection_is_kept_by_the_handle_that_connected() {
    let (sender, _receiver) = unbounded_channel();
    let (live, mut requests) = unbounded_channel();
    let mut client = new_socket(sender, SocketType::Client);
    assert_eq!(client.connected(Err(Error(ErrorKind::Timeout))), Err(Error(ErrorKind::Timeout)));
    assert!(client.connection.is_none());
    assert_eq!(client.connected(Ok(Socket(live))), Ok(()));
    assert_eq!(client.role, SocketType::Client);
    let (responder, _answers) = std::sync::mpsc::channel();
    let request = Request { event: SocketEvent::OpenBiStream, responder };
    assert!(client.connection.as_ref().unwrap().0.send(request).is_ok());
    assert!(requests.try_recv().is_ok());
    assert_eq!(client.connected(Err(CHANNEL)), Err(CHANNEL));
    assert!(client.connection.is_some());
}

#[test]
fn answered_handle_has_to_be_what_was_asked_for() {
    let (channel, _requests) = unbounded_channel();
    let stream = |kind, owner| Ok(SocketReply::Stream(Stream { channel: channel.clone(), kind, owner }));
    assert!(stream_of_kind(stream(StreamType::Uni, ConnectionOwner::Host), StreamType::Uni).is_ok());
    assert!(stream_of_kind(stream(StreamType::Bi, ConnectionOwner::Host), StreamType::Bi).is_ok());
    for (kind, owner, asked) in [
        (StreamType::Bi, ConnectionOwner::Host, StreamType::Uni),
        (StreamType::Uni, ConnectionOwner::Host, StreamType::Bi),
        (StreamType::Uni, ConnectionOwner::Peer, StreamType::Uni),
        (StreamType::Bi, ConnectionOwner::Peer, StreamType::Bi),
    ] {
        assert_eq!(stream_of_kind(stream(kind, owner), asked).err(), Some(CHANNEL));
    }
    assert_eq!(stream_of_kind(Ok(SocketReply::Closed), StreamType::Bi).err(), Some(CHANNEL));
    assert_eq!(stream_of_kind(Err(CONFIG), StreamType::Bi).err(), Some(CONFIG));

    let (sender, _receiver) = unbounded_channel();
    let (live, _requests) = unbounded_channel();
    let fresh = |role| new_socket(sender.clone(), role);
    assert!(new_socket_of_role(Ok(fresh(SocketType::Server)), SocketType::Server).is_ok());
    assert!(new_socket_of_role(Ok(fresh(SocketType::Client)), SocketType::Client).is_ok());
    assert_eq!(
        new_socket_of_role(Ok(fresh(SocketType::Client)), SocketType::Server).err(),
        Some(CHANNEL)
    );
    assert_eq!(
        new_socket_of_role(Ok(fresh(SocketType::Server)), SocketType::Client).err(),
        Some(CHANNEL)
    );
    let connected = NewSocket { connection: Some(Socket(live)), ..fresh(SocketType::Client) };
    assert_eq!(new_socket_of_role(Ok(connected), SocketType::Client).err(), Some(CHANNEL));
    assert_eq!(new_socket_of_role(Err(CONFIG), SocketType::Client).err(), Some(CONFIG));
}

#[test]
fn open_stream_asks_for_the_kind() {
    let tasks = tokio::runtime::Runtime::new().unwrap();
    let (sender, mut receiver) = unbounded_channel::<Request<SocketEvent, SocketReply>>();
    let seen = Arc::new(Mutex::new(Vec::new()));
    let log = seen.clone();
    tasks.spawn(async move {
        while let Some(request) = receiver.recv().await {
            log.lock().unwrap().push(format!("{:?}", request.event));
            let (stream, _receiver) = unbounded_channel();
            let reply = match request.event {
                SocketEvent::Close(..) => SocketReply::Closed,
                SocketEvent::OpenBiStream => SocketReply::Stream(own(stream, StreamType::Bi)),
                SocketEvent::OpenUniStream => SocketReply::Stream(own(stream, StreamType::Uni)),
            };
            let _ = request.responder.send(Ok(reply));
        }
    });
    let socket = Socket(sender);
    assert!(api::open_stream(&socket, StreamType::Uni).is_ok());
    assert!(api::open_stream(&socket, StreamType::Bi).is_ok());
    assert!(socket.new_bi_stream().is_ok());
    assert!(socket.new_uni_stream().is_ok());
    assert_eq!(api::close(&socket, ApplicationError::Error(0), Some("done")), Ok(()));
    assert_eq!(api::close(&socket, ApplicationError::LargeError(1 << 62), None), Ok(()));
    assert_eq!(
        *seen.lock().unwrap(),
        vec![
            "OpenUniStream".to_string(),
            "OpenBiStream".to_string(),
            "OpenBiStream".to_string(),
            "OpenUniStream".to_string(),
            "Close(Error(0), Some(\"done\"))".to_string(),
            "Close(LargeError(4611686018427387904), None)".to_string(),
        ]
    );
}

#[test]
fn handle_to_opened_stream_is_of_the_kind_asked_for() {
    let tasks = tokio::runtime::Runtime::new().unwrap();
    let (sender, mut receiver) = unbounded_channel::<Request<SocketEvent, SocketReply>>();
    tasks.spawn(async move {
        let mut honest = true;
        while let Some(request) = receiver.recv().await {
            let (stream, _receiver) = unbounded_channel();
            let kind = match (&request.event, honest) {
                (SocketEvent::OpenUniStream, true) | (SocketEvent::OpenBiStream, false) => StreamType::Uni,
                _ => StreamType::Bi,
            };
            honest = !matches!(request.event, SocketEvent::Close(..));
            let _ = request.responder.send(Ok(SocketReply::Stream(own(stream, kind))));
        }
    });
    let socket = Socket(sender);
    let uni = socket.new_uni_stream().unwrap();
    assert_eq!((uni.kind, uni.owner), (StreamType::Uni, ConnectionOwner::Host));
    assert!(uni.sends() && !uni.receives());
    let bi = socket.new_bi_stream().unwrap();
    assert_eq!((bi.kind, bi.owner), (StreamType::Bi, ConnectionOwner::Host));
    assert!(bi.sends() && bi.receives());
    for kind in [StreamType::Uni, StreamType::Bi] {
        let opened = api::open_stream(&socket, kind).unwrap();
        assert_eq!((opened.kind, opened.owner), (kind, ConnectionOwner::Host));
    }
    assert_eq!(socket.close(ApplicationError::Error(0), None), Err(CHANNEL));
    assert_eq!(socket.new_uni_stream().err(), Some(CHANNEL));
}

#[test]
fn role_and_direction_are_checked_before_the_task_is_asked() {
    let (sender, mut receiver) = unbounded_channel();
    let client = new_socket(sender.clone(), SocketType::Client);
    let mut server = new_socket(sender, SocketType::Server);
    let address = SocketAddr { ip: IpAddr::V4(127, 0, 0, 1), port: 4433 };
    for timeout in [None, Some(0), Some(1), Some(u64::MAX)] {
        assert_eq!(client.accept(timeout).err(), Some(Error(ErrorKind::State)));
        assert_eq!(api::accept(&client, timeout).err(), Some(Error(ErrorKind::State)));
        assert_eq!(server.connect(address, timeout).err(), Some(Error(ErrorKind::State)));
        assert!(server.connection.is_none());
    }
    assert!(receiver.try_recv().is_err());

    let (sender, mut receiver) = unbounded_channel();
    let mismatch = Error(ErrorKind::DirectionMismatch);
    let ours = own(sender.clone(), StreamType::Uni);
    let theirs = Stream { channel: sender, kind: StreamType::Uni, owner: ConnectionOwner::Peer };
    for (capacity, timeout) in [(0, None), (4, Some(1)), (usize::MAX, Some(u64::MAX))] {
        assert_eq!(ours.read(capacity, timeout).err(), Some(mismatch));
    }
    assert_eq!(api::read(&ours, 4, None).err(), Some(mismatch));
    for bytes in [vec![], vec![0u8], b"ping".to_vec()] {
        assert_eq!(theirs.write(bytes).err(), Some(mismatch));
    }
    assert_eq!(api::write(&theirs, "ping").err(), Some(mismatch));
    assert!(receiver.try_recv().is_err());
}

#[test]
fn answer_to_a_read_has_to_fit_what_was_asked() {
    let tasks = tokio::runtime::Runtime::new().unwrap();
    let (sender, mut receiver) = unbounded_channel::<Request<StreamEvent, StreamReply>>();
    tasks.spawn(async move {
        while let Some(request) = receiver.recv().await {
            let reply = match request.event {
                StreamEvent::Read(4, _) => StreamReply::Read(2, vec![1, 2, 0, 0]),
                StreamEvent::Read(3, _) => StreamReply::Read(5, vec![1, 2, 3]),
                _ => StreamReply::Read(1, vec![1]),
            };
            let _ = request.responder.send(Ok(reply));
        }
    });
    let stream = own(sender, StreamType::Bi);
    assert_eq!(stream.read(4, None), Ok((2, vec![1, 2, 0, 0])));
    assert_eq!(stream.read(3, None), Err(CHANNEL));
    assert_eq!(stream.read(2, None), Err(CHANNEL));
    assert_eq!(api::read(&stream, 1, None), Ok((1, vec![1])));
}

#[test]
fn open_socket_request_carries_role_and_configs() {
    let tasks = tokio::runtime::Runtime::new().unwrap();
    let (sender, mut receiver) = unbounded_channel::<Request<Event, NewSocket>>();
    let seen = Arc::new(Mutex::new(Vec::new()));
    let log = seen.clone();
    tasks.spawn(async move {
        while let Some(request) = receiver.recv().await {
            let Event::OpenSocket(role, configs) = request.event;
            let first = log.lock().unwrap().is_empty();
            log.lock().unwrap().push((role, configs.socket_config.0.server_name.clone()));
            let (socket, _receiver) = unbounded_channel();
            let answered = if first { role } else { SocketType::Client };
            let _ = request.responder.send(Ok(new_socket(socket, answered)));
        }
    });
    let runtime = Runtime(sender);
    let listener = api::listen(&runtime, socket_config(true), stream_config()).unwrap();
    assert_eq!(listener.role, SocketType::Server);
    assert!(listener.connection.is_none());
    assert_eq!(api::listen(&runtime, socket_config(true), stream_config()).err(), Some(CHANNEL));
    assert_eq!(
        *seen.lock().unwrap(),
        vec![
            (SocketType::Server, "localhost".to_string()),
            (SocketType::Server, "localhost".to_string())
        ]
    );
}

#[test]
fn ping_pong_over_a_bidirectional_stream() {
    let tasks = tokio::runtime::Runtime::new().unwrap();
    let to_server: Pipe = Arc::new(Mutex::new(VecDeque::new()));
    let to_client: Pipe = Arc::new(Mutex::new(VecDeque::new()));
    let (client, client_state) = spawn_stream(
        &tasks,
        StreamState::open(StreamType::Bi, ConnectionOwner::Host),
        &to_server,
        &to_client,
    );
    let (server, server_state) = spawn_stream(
        &tasks,
        StreamState::open(StreamType::Bi, ConnectionOwner::Peer),
        &to_client,
        &to_server,
    );

    assert_eq!(client.write(b"ping".to_vec()), Ok(()));
    assert_eq!(server.read(4, None), Ok((4, b"ping".to_vec())));
    assert_eq!(api::write(&server, "pong"), Ok(()));
    assert_eq!(api::read(&client, 4, Some(100)), Ok((4, b"pong".to_vec())));

    assert_eq!(client.close_stream(ApplicationError::Error(0)), Ok(()));
    assert_eq!(api::close_stream(&server, ApplicationError::Error(0)), Ok(()));
    assert_eq!(*client_state.lock().unwrap(), Some(StreamStateLocal::Closed));
    assert_eq!(*server_state.lock().unwrap(), Some(StreamStateLocal::Closed));
}

#[test]
fn peer_sees_writes_in_the_order_made() {
    let tasks = tokio::runtime::Runtime::new().unwrap();
    let wire: Pipe = Arc::new(Mutex::new(VecDeque::new()));
    let unused: Pipe = Arc::new(Mutex::new(VecDeque::new()));
    let (sender, _) = spawn_stream(
        &tasks,
        StreamState::open(StreamType::Uni, ConnectionOwner::Host),
        &wire,
        &unused,
    );
    let (receiver, _) = spawn_stream(
        &tasks,
        StreamState::open(StreamType::Uni, ConnectionOwner::Peer),
        &unused,
        &wire,
    );
    assert_eq!(sender.write(b"AAAA".to_vec()), Ok(()));
    assert_eq!(sender.clone().write(b"BB".to_vec()), Ok(()));
    assert_eq!(receiver.read(3, None), Ok((3, b"AAA".to_vec())));
    assert_eq!(receiver.read(8, None), Ok((3, vec![b'A', b'B', b'B', 0, 0, 0, 0, 0])));
    assert_eq!(receiver.read(8, Some(1)).err(), Some(Error(ErrorKind::Timeout)));
    assert_eq!(sender.read(1, None).err(), Some(Error(ErrorKind::DirectionMismatch)));
    assert_eq!(receiver.write(vec![1]).err(), Some(Error(ErrorKind::DirectionMismatch)));
}

#[test]
fn closed_stream_answers_no_more() {
    let tasks = tokio::runtime::Runtime::new().unwrap();
    let pipe: Pipe = Arc::new(Mutex::new(VecDeque::new()));
    let (first, _) =
        spawn_stream(&tasks, StreamState::open(StreamType::Bi, ConnectionOwner::Host), &pipe, &pipe);
    let (other, _) =
        spawn_stream(&tasks, StreamState::open(StreamType::Bi, ConnectionOwner::Host), &pipe, &pipe);
    assert_eq!(first.close_stream(ApplicationError::Error(0)), Ok(()));
    assert_eq!(first.close_stream(ApplicationError::Error(0)), Err(Error(ErrorKind::State)));
    assert_eq!(first.clone().close_stream(ApplicationError::Error(9)), Err(Error(ErrorKind::State)));
    assert_eq!(
        first.close_stream(ApplicationError::LargeError(u64::MAX)),
        Err(Error(ErrorKind::State))
    );
    assert_eq!(first.write(vec![1]), Err(CHANNEL));
    assert_eq!(other.close_stream(ApplicationError::LargeError(1 << 62)), Err(CONFIG));
    assert_eq!(other.write(vec![1, 2]), Ok(()));
    assert_eq!(other.read(2, None), Ok((2, vec![1, 2])));
}

#[test]
fn oversized_read_amount_is_a_config_error() {
    let (sender, receiver) = unbounded_channel();
    drop(receiver);
    let stream = own(sender, StreamType::Bi);
    if (usize::MAX as u128) < (u64::MAX as u128) {
        assert_eq!(api::read(&stream, u64::MAX, None).err(), Some(CONFIG));
    }
    assert_eq!(api::read(&stream, 1, None).err(), Some(CHANNEL));
    assert_eq!(
        stream.close_stream(ApplicationError::LargeError(u64::MAX)),
        Err(Error(ErrorKind::State))
    );
}

struct Recorder(Mutex<Vec<&'static str>>);

impl Notify for Recorder {
    fn peer_bi_stream(&self, _stream: Stream) -> Result<(), Error> {
        self.0.lock().unwrap().push("bi");
        Ok(())
    }

    fn peer_uni_stream(&self, _stream: Stream) -> Result<(), Error> {
        self.0.lock().unwrap().push("uni");
        Err(CHANNEL)
    }
}

#[test]
fn announcement_goes_by_the_kind_of_stream() {
    let sink = Recorder(Mutex::new(Vec::new()));
    let (sender, _receiver) = unbounded_channel();
    assert_eq!(notify(&sink, StreamType::Bi, own(sender.clone(), StreamType::Bi)), Ok(()));
    assert_eq!(notify(&sink, StreamType::Uni, own(sender, StreamType::Uni)), Err(CHANNEL));
    assert_eq!(*sink.0.lock().unwrap(), vec!["bi", "uni"]);
}
