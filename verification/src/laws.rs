//! What holds of the runtime's decisions in every state.

use vstd::prelude::*;
use crate::error::{ApplicationError, Error, ErrorKind};
use crate::event::{NewSocketEvent, SocketEvent, StreamEvent};
use crate::runtime::{
    spec_accept_reply, spec_accept_state, spec_connect_reply, spec_connect_state,
    spec_new_socket_state, spec_new_socket_step, spec_peer_state, spec_peer_stream,
    spec_socket_state, spec_socket_step, Arrival, Dial, NewSocketStep, SocketRuntime, SocketStep,
};
use crate::state::{may_follow, SocketState, SocketStateLocal};
use crate::stream::{
    spec_read_buffer, spec_read_count, spec_read_state, spec_stream_state, spec_stream_step,
    spec_write_reply, ReadOutcome, StreamStep, WriteOutcome,
};
use crate::stream_state::StreamState;
use crate::types::{ConnectionOwner, SocketType, StreamType};

verus! {

/// A server that binds and accepts, and a client that binds and connects,
/// each come to hold a live connection when the handshake is done, under
/// whatever deadlines; and on a live connection, on either side, a stream
/// of either kind can be opened.
pub proof fn setup_yields_live_connections(
    accept_within: Option<u64>,
    socket: SocketRuntime,
    kind: StreamType,
    step: SocketStep,
)
    requires
        socket.state == SocketState::spec_established(),
        spec_socket_step(
            socket,
            Some(
                match kind {
                    StreamType::Bi => SocketEvent::OpenBiStream,
                    StreamType::Uni => SocketEvent::OpenUniStream,
                },
            ),
            step,
        ),
    ensures
        spec_accept_reply(
            spec_new_socket_state(
                SocketState::spec_bound(SocketType::Server, Ok(())),
                Some(NewSocketEvent::Accept(accept_within)),
            ),
            Arrival::Connected,
        ) == Ok::<SocketState, Error>(SocketState::spec_established()),
        spec_connect_reply(SocketState::spec_bound(SocketType::Client, Ok(())), Dial::Connected)
            == Ok::<(), Error>(()),
        spec_connect_state(SocketState::spec_bound(SocketType::Client, Ok(())), Dial::Connected)
            == SocketState::spec_established(),
        step matches SocketStep::OpenStream { stream } && stream.state == StreamState::spec_pending(
            kind,
        ),
        StreamState::spec_open(kind, ConnectionOwner::Host).can_send(),
        StreamState::spec_open(kind, ConnectionOwner::Peer).can_recv(),
{
}

/// The states that a client's socket can be in: bound and ready to
/// connect, connected, or closed.
pub open spec fn client_state(state: SocketState) -> bool {
    state.local is Connecting || state.local is Established || state.local is Closed
}

/// A client's socket starts in a client's state, whether its bind went well
/// or not.
pub proof fn client_starts_as_client(bound: Result<(), Error>)
    ensures
        client_state(SocketState::spec_bound(SocketType::Client, bound)),
{
}

/// Whatever is asked of a client's socket, and however a connect ends, it
/// stays in a client's state: it never comes to listen.
pub proof fn client_stays_client(
    state: SocketState,
    request: Option<NewSocketEvent>,
    live_request: Option<SocketEvent>,
    dial: Dial,
    arrival: Arrival,
    kind: StreamType,
    stream: Option<Result<(), Error>>,
)
    requires
        client_state(state),
    ensures
        client_state(spec_new_socket_state(state, request)),
        client_state(spec_connect_state(state, dial)),
        client_state(spec_accept_state(state, arrival)),
        client_state(spec_socket_state(state, live_request)),
        client_state(spec_peer_state(state, kind, stream)),
{
}

/// An accept on a client's socket fails with a state error, whatever its
/// deadline, and leaves the socket as it was. Should the transport report
/// an arrival all the same, no connection comes of it.
pub proof fn client_never_accepts(
    socket: SocketRuntime,
    timeout: Option<u64>,
    step: NewSocketStep,
    arrival: Arrival,
)
    requires
        client_state(socket.state),
        spec_new_socket_step(socket, Some(NewSocketEvent::Accept(timeout)), step),
    ensures
        step == NewSocketStep::Reject(Error(ErrorKind::State)),
        spec_new_socket_state(socket.state, Some(NewSocketEvent::Accept(timeout))) == socket.state,
        spec_accept_reply(socket.state, arrival) == Err::<SocketState, Error>(
            Error(ErrorKind::State),
        ),
        spec_accept_state(socket.state, arrival) == socket.state,
{
}

/// A connect on a socket that listens fails with a state error.
pub proof fn server_never_connects(
    socket: SocketRuntime,
    address: crate::types::SocketAddr,
    timeout: Option<u64>,
    step: NewSocketStep,
    dial: Dial,
)
    requires
        socket.state.local is Listening,
        spec_new_socket_step(socket, Some(NewSocketEvent::Connect(address, timeout)), step),
    ensures
        step == NewSocketStep::Reject(Error(ErrorKind::State)),
        spec_connect_reply(socket.state, dial) == Err::<(), Error>(Error(ErrorKind::State)),
{
}

/// A connection only moves forward: whatever is asked of it and whatever
/// the transport reports, it stays in its phase, goes on to a later one,
/// or closes.
pub proof fn connection_moves_forward(
    state: SocketState,
    request: Option<NewSocketEvent>,
    live_request: Option<SocketEvent>,
    dial: Dial,
    arrival: Arrival,
    kind: StreamType,
    stream: Option<Result<(), Error>>,
)
    requires
        state.wf(),
    ensures
        may_follow(state.local, spec_new_socket_state(state, request).local),
        may_follow(state.local, spec_connect_state(state, dial).local),
        may_follow(state.local, spec_accept_state(state, arrival).local),
        may_follow(state.local, spec_socket_state(state, live_request).local),
        may_follow(state.local, spec_peer_state(state, kind, stream).local),
{
}

/// Nothing follows closed: a closed connection stays closed, with the
/// cause it closed for, whatever is asked of it and whatever the transport
/// reports.
pub proof fn closed_connection_stays_closed(
    state: SocketState,
    request: Option<NewSocketEvent>,
    live_request: Option<SocketEvent>,
    dial: Dial,
    arrival: Arrival,
    kind: StreamType,
    stream: Option<Result<(), Error>>,
)
    requires
        state.wf(),
        state.is_closed(),
    ensures
        spec_new_socket_state(state, request) == state,
        spec_connect_state(state, dial) == state,
        spec_accept_state(state, arrival) == state,
        spec_socket_state(state, live_request) == state,
        spec_peer_state(state, kind, stream) == state,
{
}

/// No request succeeds on a closed connection: each is rejected with a
/// state error.
pub proof fn closed_connection_rejects(
    socket: SocketRuntime,
    request: NewSocketEvent,
    live_request: SocketEvent,
    step: NewSocketStep,
    live_step: SocketStep,
)
    requires
        socket.state.is_closed(),
        spec_new_socket_step(socket, Some(request), step),
        spec_socket_step(socket, Some(live_request), live_step),
    ensures
        step == NewSocketStep::Reject(Error(ErrorKind::State)),
        live_step == SocketStep::Reject(Error(ErrorKind::State)),
{
}

/// Closing a socket a second time is an error and changes nothing: after
/// a close that was admitted the socket is closed, and a further close,
/// with whatever code and reason, is rejected with a state error and
/// leaves the socket as the first one left it.
pub proof fn second_close_of_socket_fails(
    socket: SocketRuntime,
    first: (ApplicationError, Option<String>),
    second: (ApplicationError, Option<String>),
    step: SocketStep,
    new_step: NewSocketStep,
)
    requires
        first.0.encodable(),
        !socket.state.is_closed(),
        spec_socket_step(
            SocketRuntime {
                state: spec_socket_state(socket.state, Some(SocketEvent::Close(first.0, first.1))),
                ..socket
            },
            Some(SocketEvent::Close(second.0, second.1)),
            step,
        ),
        spec_new_socket_step(
            SocketRuntime {
                state: spec_new_socket_state(
                    socket.state,
                    Some(NewSocketEvent::Close(first.0, first.1)),
                ),
                ..socket
            },
            Some(NewSocketEvent::Close(second.0, second.1)),
            new_step,
        ),
    ensures
        spec_socket_state(socket.state, Some(SocketEvent::Close(first.0, first.1))).is_closed(),
        step == SocketStep::Reject(Error(ErrorKind::State)),
        spec_socket_state(
            spec_socket_state(socket.state, Some(SocketEvent::Close(first.0, first.1))),
            Some(SocketEvent::Close(second.0, second.1)),
        ) == spec_socket_state(socket.state, Some(SocketEvent::Close(first.0, first.1))),
        spec_new_socket_state(
            socket.state,
            Some(NewSocketEvent::Close(first.0, first.1)),
        ).is_closed(),
        new_step == NewSocketStep::Reject(Error(ErrorKind::State)),
        spec_new_socket_state(
            spec_new_socket_state(socket.state, Some(NewSocketEvent::Close(first.0, first.1))),
            Some(NewSocketEvent::Close(second.0, second.1)),
        ) == spec_new_socket_state(socket.state, Some(NewSocketEvent::Close(first.0, first.1))),
{
}

/// Closing a stream a second time is an error and changes nothing.
pub proof fn second_close_of_stream_fails(
    state: StreamState,
    first: ApplicationError,
    second: ApplicationError,
    step: StreamStep,
)
    requires
        first.encodable(),
        spec_stream_step(
            spec_stream_state(state, Some(StreamEvent::CloseStream(first))),
            Some(StreamEvent::CloseStream(second)),
            step,
        ),
    ensures
        spec_stream_state(state, Some(StreamEvent::CloseStream(first))).is_closed(),
        step == StreamStep::Reject(Error(ErrorKind::State)),
        spec_stream_state(
            spec_stream_state(state, Some(StreamEvent::CloseStream(first))),
            Some(StreamEvent::CloseStream(second)),
        ) == spec_stream_state(state, Some(StreamEvent::CloseStream(first))),
{
}

/// An accept that runs out of time costs nothing. On a socket that
/// listens, the accept is admitted; when its deadline passes it is
/// answered with a timeout; and the socket is then as it was before, so
/// that the next accept, under whatever deadline, is admitted again and
/// yields a connection when one arrives.
pub proof fn accept_timeout_is_retryable(
    socket: SocketRuntime,
    timeout: Option<u64>,
    later: Option<u64>,
    step: NewSocketStep,
    next_step: NewSocketStep,
)
    requires
        socket.state.wf(),
        socket.state.local == (SocketStateLocal::Listening { incoming: true }),
        spec_new_socket_step(socket, Some(NewSocketEvent::Accept(timeout)), step),
        spec_new_socket_step(socket, Some(NewSocketEvent::Accept(later)), next_step),
    ensures
        step == (NewSocketStep::Accept { timeout }),
        ({
            let waiting = spec_new_socket_state(
                socket.state,
                Some(NewSocketEvent::Accept(timeout)),
            );
            let after = spec_accept_state(waiting, Arrival::TimedOut);
            &&& spec_accept_reply(waiting, Arrival::TimedOut) == Err::<SocketState, Error>(
                Error(ErrorKind::Timeout),
            )
            &&& after == socket.state
            &&& next_step == (NewSocketStep::Accept { timeout: later })
            &&& spec_accept_reply(
                spec_new_socket_state(after, Some(NewSocketEvent::Accept(later))),
                Arrival::Connected,
            ) == Ok::<SocketState, Error>(SocketState::spec_established())
        }),
{
}

/// A connect that runs out of time leaves the client's socket ready to
/// connect again.
pub proof fn connect_timeout_is_retryable(state: SocketState)
    requires
        state.local is Connecting,
    ensures
        spec_connect_reply(state, Dial::TimedOut) == Err::<(), Error>(Error(ErrorKind::Timeout)),
        spec_connect_state(state, Dial::TimedOut) == state,
        spec_connect_reply(spec_connect_state(state, Dial::TimedOut), Dial::Connected) == Ok::<
            (),
            Error,
        >(()),
{
}

/// A unidirectional stream that this side opened cannot be read: in
/// whatever phase it is, every read, of whatever size and under whatever
/// deadline, is rejected with a direction mismatch; and the stream is the
/// same after it.
pub proof fn own_uni_stream_rejects_read(
    state: StreamState,
    capacity: usize,
    timeout: Option<u64>,
    step: StreamStep,
)
    requires
        state.kind == StreamType::Uni,
        state.owner == ConnectionOwner::Host,
        spec_stream_step(state, Some(StreamEvent::Read(capacity, timeout)), step),
    ensures
        step == StreamStep::Reject(Error(ErrorKind::DirectionMismatch)),
        spec_stream_state(state, Some(StreamEvent::Read(capacity, timeout))) == state,
{
}

/// Whatever the transport might report of a read on a unidirectional
/// stream that this side opened, the stream stays as it was.
pub proof fn own_uni_stream_ignores_read_reports(state: StreamState, outcome: ReadOutcome)
    requires
        state.kind == StreamType::Uni,
        state.owner == ConnectionOwner::Host,
    ensures
        spec_read_state(state, outcome) == state,
{
}

/// A unidirectional stream that the peer opened cannot be written: in
/// whatever phase it is, every write, of whatever bytes, is rejected with
/// a direction mismatch; and the stream is the same after it.
pub proof fn peer_uni_stream_rejects_write(
    state: StreamState,
    bytes: Vec<u8>,
    step: StreamStep,
    outcome: WriteOutcome,
)
    requires
        state.kind == StreamType::Uni,
        state.owner == ConnectionOwner::Peer,
        spec_stream_step(state, Some(StreamEvent::Write(bytes)), step),
    ensures
        step == StreamStep::Reject(Error(ErrorKind::DirectionMismatch)),
        spec_stream_state(state, Some(StreamEvent::Write(bytes))) == state,
        spec_write_reply(state, outcome) == Err::<(), Error>(
            Error(ErrorKind::DirectionMismatch),
        ),
{
}

/// The stream that the task of a peer's unidirectional stream starts with
/// is one that the peer opened, and the stream that a request for an own
/// unidirectional stream starts with is one that this side opened; and
/// neither kind nor owner of a stream ever changes.
pub proof fn stream_keeps_kind_and_owner(
    state: StreamState,
    event: Option<StreamEvent>,
    outcome: ReadOutcome,
)
    ensures
        spec_peer_stream(StreamType::Uni).kind == StreamType::Uni,
        spec_peer_stream(StreamType::Uni).owner == ConnectionOwner::Peer,
        StreamState::spec_pending(StreamType::Uni).kind == StreamType::Uni,
        StreamState::spec_pending(StreamType::Uni).owner == ConnectionOwner::Host,
        spec_stream_state(state, event).kind == state.kind,
        spec_stream_state(state, event).owner == state.owner,
        spec_read_state(state, outcome).kind == state.kind,
        spec_read_state(state, outcome).owner == state.owner,
{
}

/// A stream holds the halves of its kind: both halves where it is
/// bidirectional, and exactly one where it is unidirectional, the send
/// half on the side that opened it and the receive half on the other.
pub proof fn stream_holds_the_halves_of_its_kind(state: StreamState)
    ensures
        state.spec_sends() || state.spec_receives(),
        state.kind == StreamType::Bi ==> state.spec_sends() && state.spec_receives(),
        state.kind == StreamType::Uni ==> (state.spec_sends() <==> state.owner
            == ConnectionOwner::Host) && (state.spec_receives() <==> state.owner
            == ConnectionOwner::Peer),
        StreamState::spec_open(StreamType::Bi, state.owner).can_send(),
        StreamState::spec_open(StreamType::Bi, state.owner).can_recv(),
{
}

/// Nothing follows closed for a stream either: whatever is asked of a
/// closed stream is rejected, and whatever is asked or reported, the
/// stream stays closed.
pub proof fn closed_stream_stays_closed(
    state: StreamState,
    request: StreamEvent,
    step: StreamStep,
    outcome: ReadOutcome,
)
    requires
        state.is_closed(),
        spec_stream_step(state, Some(request), step),
    ensures
        step is Reject,
        spec_stream_state(state, Some(request)) == state,
        spec_stream_state(state, None) == state,
        spec_read_state(state, outcome) == state,
{
}

/// The bytes that a step hands to the transport for writing.
pub open spec fn spec_written(step: StreamStep) -> Seq<u8> {
    match step {
        StreamStep::Write { bytes } => bytes@,
        _ => Seq::<u8>::empty(),
    }
}

/// The state of a stream after it has taken the requests given, one after
/// another.
pub open spec fn spec_after(state: StreamState, events: Seq<StreamEvent>) -> StreamState
    decreases events.len(),
{
    if events.len() == 0 {
        state
    } else {
        spec_after(spec_stream_state(state, Some(events[0])), events.drop_first())
    }
}

/// The bytes that a stream hands to the transport, in the order in which
/// it hands them over, when it takes the requests given one after another:
/// those of each write that is admitted, and nothing for any other
/// request.
pub open spec fn spec_outgoing(state: StreamState, events: Seq<StreamEvent>) -> Seq<u8>
    decreases events.len(),
{
    if events.len() == 0 {
        Seq::<u8>::empty()
    } else {
        let bytes = match events[0] {
            StreamEvent::Write(bytes) => if state.can_send() {
                bytes@
            } else {
                Seq::<u8>::empty()
            },
            _ => Seq::<u8>::empty(),
        };
        bytes + spec_outgoing(spec_stream_state(state, Some(events[0])), events.drop_first())
    }
}

/// A write that is admitted hands over exactly the bytes it was given, and
/// leaves the stream as it was.
pub proof fn write_hands_over_its_bytes(state: StreamState, bytes: Vec<u8>, step: StreamStep)
    requires
        state.can_send(),
        spec_stream_step(state, Some(StreamEvent::Write(bytes)), step),
    ensures
        spec_written(step) == bytes@,
        spec_stream_state(state, Some(StreamEvent::Write(bytes))) == state,
        spec_outgoing(state, seq![StreamEvent::Write(bytes)]) == bytes@,
{
    let events = seq![StreamEvent::Write(bytes)];
    assert(events[0] == StreamEvent::Write(bytes));
    assert(events.drop_first().len() == 0);
    assert(spec_outgoing(state, events.drop_first()) == Seq::<u8>::empty());
    assert(bytes@ + Seq::<u8>::empty() =~= bytes@);
}

/// Two writes on one stream, one after the other, hand their bytes to the
/// transport in that order: first all of the first, then all of the
/// second.
pub proof fn writes_keep_their_order(
    state: StreamState,
    a: Vec<u8>,
    b: Vec<u8>,
    first: StreamStep,
    second: StreamStep,
)
    requires
        state.can_send(),
        spec_stream_step(state, Some(StreamEvent::Write(a)), first),
        spec_stream_step(
            spec_stream_state(state, Some(StreamEvent::Write(a))),
            Some(StreamEvent::Write(b)),
            second,
        ),
    ensures
        spec_written(first) == a@,
        spec_written(second) == b@,
        spec_outgoing(state, seq![StreamEvent::Write(a), StreamEvent::Write(b)]) == a@ + b@,
{
    let events = seq![StreamEvent::Write(a), StreamEvent::Write(b)];
    let rest = events.drop_first();
    assert(events[0] == StreamEvent::Write(a));
    assert(rest =~= seq![StreamEvent::Write(b)]);
    write_hands_over_its_bytes(state, b, second);
}

/// What earlier requests had written comes before what later requests
/// write: the bytes handed over for one run of requests followed by
/// another are those of the first run, then those of the second run taken
/// in the state that the first left.
pub proof fn outgoing_keeps_request_order(
    state: StreamState,
    earlier: Seq<StreamEvent>,
    later: Seq<StreamEvent>,
)
    ensures
        spec_outgoing(state, earlier + later) == spec_outgoing(state, earlier) + spec_outgoing(
            spec_after(state, earlier),
            later,
        ),
        spec_after(state, earlier + later) == spec_after(spec_after(state, earlier), later),
    decreases earlier.len(),
{
    if earlier.len() == 0 {
        assert(earlier + later =~= later);
        assert(Seq::<u8>::empty() + spec_outgoing(state, later) =~= spec_outgoing(state, later));
    } else {
        let next = spec_stream_state(state, Some(earlier[0]));
        assert((earlier + later).drop_first() =~= earlier.drop_first() + later);
        assert((earlier + later)[0] == earlier[0]);
        outgoing_keeps_request_order(next, earlier.drop_first(), later);
        let head = match earlier[0] {
            StreamEvent::Write(bytes) => if state.can_send() {
                bytes@
            } else {
                Seq::<u8>::empty()
            },
            _ => Seq::<u8>::empty(),
        };
        assert(head + (spec_outgoing(next, earlier.drop_first()) + spec_outgoing(
            spec_after(next, earlier.drop_first()),
            later,
        )) =~= (head + spec_outgoing(next, earlier.drop_first())) + spec_outgoing(
            spec_after(next, earlier.drop_first()),
            later,
        ));
    }
}

/// A read never reports more than was asked for nor more than arrived,
/// and the bytes it reports are the first of those that arrived, in their
/// order.
pub proof fn read_reports_what_arrived(arrived: Seq<u8>, capacity: nat)
    ensures
        spec_read_count(arrived, capacity) <= capacity,
        spec_read_count(arrived, capacity) <= arrived.len(),
        spec_read_buffer(arrived, capacity).len() == capacity,
        spec_read_buffer(arrived, capacity).take(spec_read_count(arrived, capacity) as int)
            == arrived.take(spec_read_count(arrived, capacity) as int),
{
    let count = spec_read_count(arrived, capacity) as int;
    assert(spec_read_buffer(arrived, capacity).take(count) =~= arrived.take(count));
}

/// Bytes make the round from a writer to a reader unchanged, as far as
/// this library has a hand in it: where the transport delivers to the
/// reader exactly what a write handed over, a read that asks for as many
/// bytes at least reports all of them, as they were written.
pub proof fn read_returns_what_was_written(
    writer: StreamState,
    bytes: Vec<u8>,
    step: StreamStep,
    capacity: nat,
)
    requires
        writer.can_send(),
        spec_stream_step(writer, Some(StreamEvent::Write(bytes)), step),
        bytes@.len() <= capacity,
    ensures
        spec_read_count(spec_written(step), capacity) == bytes@.len(),
        spec_read_buffer(spec_written(step), capacity).take(bytes@.len() as int) == bytes@,
{
    read_reports_what_arrived(bytes@, capacity);
    assert(bytes@.take(bytes@.len() as int) =~= bytes@);
}

/// The bytes of a run of chunks, one after the other.
pub open spec fn spec_joined(chunks: Seq<Seq<u8>>) -> Seq<u8>
    decreases chunks.len(),
{
    if chunks.len() == 0 {
        Seq::<u8>::empty()
    } else {
        chunks[0] + spec_joined(chunks.drop_first())
    }
}

/// What a reader gathers who reads once for each chunk that the transport
/// delivers, each time asking for `capacity` bytes, and keeps of each
/// buffer the bytes that the read reported.
pub open spec fn spec_gathered(chunks: Seq<Seq<u8>>, capacity: nat) -> Seq<u8>
    decreases chunks.len(),
{
    if chunks.len() == 0 {
        Seq::<u8>::empty()
    } else {
        spec_read_buffer(chunks[0], capacity).take(spec_read_count(chunks[0], capacity) as int)
            + spec_gathered(chunks.drop_first(), capacity)
    }
}

/// Reads gather what arrived: where the transport delivers a run of
/// chunks, none longer than a read asks for, the bytes that the reads
/// report, joined in the order of the reads, are the bytes of the chunks,
/// byte for byte; and each read reports all of its chunk, so at least one
/// byte where the chunk holds one.
pub proof fn reads_gather_what_arrived(chunks: Seq<Seq<u8>>, capacity: nat)
    requires
        forall|i: int| 0 <= i < chunks.len() ==> (#[trigger] chunks[i]).len() <= capacity,
    ensures
        spec_gathered(chunks, capacity) == spec_joined(chunks),
        forall|i: int|
            0 <= i < chunks.len() ==> spec_read_count(#[trigger] chunks[i], capacity)
                == chunks[i].len(),
    decreases chunks.len(),
{
    if chunks.len() > 0 {
        let rest = chunks.drop_first();
        assert forall|i: int| 0 <= i < rest.len() implies (#[trigger] rest[i]).len()
            <= capacity by {
            assert(rest[i] == chunks[i + 1]);
        }
        reads_gather_what_arrived(rest, capacity);
        read_reports_what_arrived(chunks[0], capacity);
        assert(chunks[0].take(chunks[0].len() as int) =~= chunks[0]);
    }
}

/// Bytes make the round from a writer to a reader unchanged over as many
/// reads as it takes, as far as this library has a hand in it. Where a
/// write is admitted on the writer's end of a stream, and the transport
/// delivers what the write handed over to the reader's end in chunks, none
/// longer than a read asks for, then every read on the reader's end is
/// admitted, and what the reads report, joined in their order, is what was
/// written, in length and in order. This holds in either direction of a
/// bidirectional stream, whichever side opened it: both of its ends can
/// write and can read.
pub proof fn written_bytes_are_gathered_by_reads(
    writer: StreamState,
    reader: StreamState,
    bytes: Vec<u8>,
    written: StreamStep,
    chunks: Seq<Seq<u8>>,
    capacity: usize,
    timeout: Option<u64>,
    asked: StreamStep,
)
    requires
        writer.can_send(),
        reader.can_recv(),
        spec_stream_step(writer, Some(StreamEvent::Write(bytes)), written),
        spec_joined(chunks) == spec_written(written),
        forall|i: int| 0 <= i < chunks.len() ==> (#[trigger] chunks[i]).len() <= capacity,
        spec_stream_step(reader, Some(StreamEvent::Read(capacity, timeout)), asked),
    ensures
        asked == (StreamStep::Read { capacity, timeout }),
        spec_stream_state(reader, Some(StreamEvent::Read(capacity, timeout))) == reader,
        forall|arrived: Vec<u8>| #[trigger]
            spec_read_state(reader, ReadOutcome::Data(arrived)) == reader,
        spec_gathered(chunks, capacity as nat) == bytes@,
        StreamState::spec_open(StreamType::Bi, ConnectionOwner::Host).can_send()
            && StreamState::spec_open(StreamType::Bi, ConnectionOwner::Host).can_recv(),
        StreamState::spec_open(StreamType::Bi, ConnectionOwner::Peer).can_send()
            && StreamState::spec_open(StreamType::Bi, ConnectionOwner::Peer).can_recv(),
{
    reads_gather_what_arrived(chunks, capacity as nat);
}

} // verus!
