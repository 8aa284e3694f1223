//! The decisions of a stream's task.

use vstd::prelude::*;
use crate::error::{ApplicationError, Error, ErrorKind};
use crate::event::StreamEvent;
use crate::runtime::StreamRuntime;
use crate::stream_state::{StreamState, StreamStateLocal};
use crate::types::StreamType;

verus! {

/// What a stream's task does next.
#[derive(Debug)]
pub enum StreamStep {
    /// Read up to `capacity` bytes from the receive half, no longer than
    /// the deadline, then report what came with [`read`].
    Read { capacity: usize, timeout: Option<u64> },
    /// Write all of the bytes to the send half, then report how it went
    /// with [`write`].
    Write { bytes: Vec<u8> },
    /// Stop the receive half with the code, if `stop` holds one; finish
    /// the send half, if `finish` says so; answer the request with
    /// success; and end the task.
    Close { stop: Option<u64>, finish: bool },
    /// Answer the request with the error and go on.
    Reject(Error),
    /// End the task: no handle is left to send it a request.
    Stop,
}

/// What the transport reported of a read.
#[derive(Debug)]
pub enum ReadOutcome {
    /// These bytes arrived.
    Data(Vec<u8>),
    /// The peer has finished the stream: nothing more will arrive.
    Finished,
    /// The read failed.
    Failed,
    /// The deadline passed first.
    TimedOut,
}

/// What the transport reported of a write.
#[derive(Debug, Clone, Copy, PartialEq, Eq, Structural)]
pub enum WriteOutcome {
    /// All of the bytes are written.
    Written,
    /// The write failed.
    Failed,
}

/// The error that answers a read on a stream that cannot be read now: a
/// direction mismatch where the stream does not run towards this side,
/// whatever its phase, and else a state error.
pub open spec fn spec_read_refusal(state: StreamState) -> Error {
    if !state.spec_receives() {
        Error(ErrorKind::DirectionMismatch)
    } else {
        Error(ErrorKind::State)
    }
}

/// The error that answers a write on a stream that cannot be written now:
/// a direction mismatch where the stream does not run towards the peer,
/// whatever its phase, and else a state error.
pub open spec fn spec_write_refusal(state: StreamState) -> Error {
    if !state.spec_sends() {
        Error(ErrorKind::DirectionMismatch)
    } else {
        Error(ErrorKind::State)
    }
}

/// The state of a stream after a request, or after its channel closed
/// (`None`).
pub open spec fn spec_stream_state(state: StreamState, event: Option<StreamEvent>) -> StreamState {
    match event {
        Some(StreamEvent::CloseStream(code)) => if code.encodable() {
            state.spec_closed()
        } else {
            state
        },
        Some(StreamEvent::Read(_, _)) => state,
        Some(StreamEvent::Write(_)) => state,
        None => state.spec_closed(),
    }
}

/// Whether a step is the one that the request calls for in the state
/// given.
pub open spec fn spec_stream_step(state: StreamState, event: Option<StreamEvent>, step: StreamStep) -> bool {
    match event {
        Some(StreamEvent::Read(capacity, timeout)) => if state.can_recv() {
            step == (StreamStep::Read { capacity, timeout })
        } else {
            step == StreamStep::Reject(spec_read_refusal(state))
        },
        Some(StreamEvent::Write(bytes)) => if state.can_send() {
            step matches StreamStep::Write { bytes: out } && out@ == bytes@
        } else {
            step == StreamStep::Reject(spec_write_refusal(state))
        },
        Some(StreamEvent::CloseStream(code)) => if state.is_closed() {
            step == StreamStep::Reject(Error(ErrorKind::State))
        } else if !code.encodable() {
            step == StreamStep::Reject(Error(ErrorKind::Config))
        } else {
            step == (StreamStep::Close {
                stop: if state.can_recv() {
                    Some(code.number() as u64)
                } else {
                    None
                },
                finish: state.can_send(),
            })
        },
        None => step == StreamStep::Stop,
    }
}

fn read_refusal(state: &StreamState) -> (error: Error)
    ensures
        error == spec_read_refusal(*state),
{
    if !state.receives() {
        Error(ErrorKind::DirectionMismatch)
    } else {
        Error(ErrorKind::State)
    }
}

fn write_refusal(state: &StreamState) -> (error: Error)
    ensures
        error == spec_write_refusal(*state),
{
    if !state.sends() {
        Error(ErrorKind::DirectionMismatch)
    } else {
        Error(ErrorKind::State)
    }
}

fn is_open(state: &StreamState) -> (open: bool)
    ensures
        open == (state.local is Open),
{
    match state.local {
        StreamStateLocal::Open => true,
        _ => false,
    }
}

/// The kind of stream whose opening the task has to wait for before it
/// takes requests, if the stream is still pending.
pub fn run_stream(stream: &StreamRuntime) -> (pending: Option<StreamType>)
    ensures
        pending == if stream.state.local is Pending {
            Some(stream.state.kind)
        } else {
            None::<StreamType>
        },
{
    match stream.state.local {
        StreamStateLocal::Pending => Some(stream.state.kind),
        _ => None,
    }
}

/// Takes one request to a stream, or the news that its channel closed, and
/// says what the task does next.
///
/// A read is admitted on an open stream that runs towards this side, and
/// a write on an open stream that runs towards the peer. On a stream that
/// does not run that way the request is rejected with a direction
/// mismatch, whatever it asks to read or write and in whatever phase the
/// stream is; on one that does but is not open, with a state error. A
/// request never changes the state but to close the stream.
pub fn local_stream_event(stream: &mut StreamRuntime, event: Option<StreamEvent>) -> (step:
    StreamStep)
    ensures
        old(stream).state.wf() ==> final(stream).state.wf(),
        final(stream).configs == old(stream).configs,
        final(stream).state == spec_stream_state(old(stream).state, event),
        spec_stream_step(old(stream).state, event, step),
{
    match event {
        Some(StreamEvent::CloseStream(code)) => close_stream(stream, code),
        Some(StreamEvent::Read(capacity, timeout)) => {
            if is_open(&stream.state) && stream.state.receives() {
                StreamStep::Read { capacity, timeout }
            } else {
                StreamStep::Reject(read_refusal(&stream.state))
            }
        },
        Some(StreamEvent::Write(bytes)) => {
            if is_open(&stream.state) && stream.state.sends() {
                StreamStep::Write { bytes }
            } else {
                StreamStep::Reject(write_refusal(&stream.state))
            }
        },
        None => {
            let _ = stream.state.close();
            StreamStep::Stop
        },
    }
}

/// Closes a stream: the receive half, if held, is stopped with the code,
/// and the send half, if held, is finished. A stream that is closed
/// already rejects the request with a state error, and a code too large
/// to encode is rejected as a configuration error and leaves the stream
/// open.
pub fn close_stream(stream: &mut StreamRuntime, application_error: ApplicationError) -> (step:
    StreamStep)
    ensures
        old(stream).state.wf() ==> final(stream).state.wf(),
        final(stream).configs == old(stream).configs,
        final(stream).state == spec_stream_state(
            old(stream).state,
            Some(StreamEvent::CloseStream(application_error)),
        ),
        spec_stream_step(
            old(stream).state,
            Some(StreamEvent::CloseStream(application_error)),
            step,
        ),
{
    match stream.state.local {
        StreamStateLocal::Closed => StreamStep::Reject(Error(ErrorKind::State)),
        _ => {
            match application_error.into() {
                Some(number) => {
                    let open = is_open(&stream.state);
                    let stop = if open && stream.state.receives() {
                        Some(number)
                    } else {
                        None
                    };
                    let finish = open && stream.state.sends();
                    let _ = stream.state.close();
                    StreamStep::Close { stop, finish }
                },
                None => StreamStep::Reject(Error(ErrorKind::Config)),
            }
        },
    }
}

/// The buffer that answers a read of `capacity` bytes for which `bytes`
/// arrived: as long as was asked for, with what arrived at its start and
/// zeros after it.
pub open spec fn spec_read_buffer(bytes: Seq<u8>, capacity: nat) -> Seq<u8> {
    Seq::new(
        capacity,
        |i: int|
            if i < bytes.len() {
                bytes[i]
            } else {
                0u8
            },
    )
}

/// The number of bytes that a read of `capacity` bytes reports for what
/// arrived.
pub open spec fn spec_read_count(bytes: Seq<u8>, capacity: nat) -> nat {
    if bytes.len() <= capacity {
        bytes.len()
    } else {
        capacity
    }
}

/// The state of a stream after a read has ended: a stream that the peer has
/// finished is closed, and nothing else changes the state.
pub open spec fn spec_read_state(state: StreamState, outcome: ReadOutcome) -> StreamState {
    if state.can_recv() && outcome is Finished {
        state.spec_closed()
    } else {
        state
    }
}

/// Fills the buffer of a read.
fn read_buffer(bytes: &Vec<u8>, capacity: usize) -> (buffer: Vec<u8>)
    ensures
        buffer@ == spec_read_buffer(bytes@, capacity as nat),
{
    let mut buffer: Vec<u8> = Vec::new();
    let mut at: usize = 0;
    while at < capacity
        invariant
            at <= capacity,
            buffer@ == spec_read_buffer(bytes@, at as nat),
        decreases capacity - at,
    {
        let byte: u8 = if at < bytes.len() {
            bytes[at]
        } else {
            0
        };
        buffer.push(byte);
        at = at + 1;
        assert(buffer@ =~= spec_read_buffer(bytes@, at as nat));
    }
    buffer
}

/// Ends a read of `capacity` bytes with what the transport reported.
///
/// Bytes that arrived are answered with their number and a buffer of the
/// length asked for that holds them at its start. A stream that the peer
/// has finished is closed and the read answered with a state error; a read
/// that failed is answered with a state error and one that ran out of time
/// with a timeout, and both leave the stream as it was. On a stream that
/// cannot be read the answer is what the request would have been rejected
/// with.
pub fn read(stream: &mut StreamRuntime, capacity: usize, outcome: ReadOutcome) -> (reply: Result<
    (usize, Vec<u8>),
    Error,
>)
    ensures
        old(stream).state.wf() ==> final(stream).state.wf(),
        final(stream).configs == old(stream).configs,
        final(stream).state == spec_read_state(old(stream).state, outcome),
        !old(stream).state.can_recv() ==> reply == Err::<(usize, Vec<u8>), Error>(
            spec_read_refusal(old(stream).state),
        ),
        old(stream).state.can_recv() ==> match outcome {
            ReadOutcome::Data(bytes) => {
                &&& reply matches Ok((count, buffer))
                &&& count == spec_read_count(bytes@, capacity as nat)
                &&& buffer@ == spec_read_buffer(bytes@, capacity as nat)
            },
            ReadOutcome::Finished => reply == Err::<(usize, Vec<u8>), Error>(
                Error(ErrorKind::State),
            ),
            ReadOutcome::Failed => reply == Err::<(usize, Vec<u8>), Error>(
                Error(ErrorKind::State),
            ),
            ReadOutcome::TimedOut => reply == Err::<(usize, Vec<u8>), Error>(
                Error(ErrorKind::Timeout),
            ),
        },
{
    if !(is_open(&stream.state) && stream.state.receives()) {
        return Err(read_refusal(&stream.state));
    }
    match outcome {
        ReadOutcome::Data(bytes) => {
            let count = if bytes.len() <= capacity {
                bytes.len()
            } else {
                capacity
            };
            Ok((count, read_buffer(&bytes, capacity)))
        },
        ReadOutcome::Finished => {
            let _ = stream.state.close();
            Err(Error(ErrorKind::State))
        },
        ReadOutcome::Failed => Err(Error(ErrorKind::State)),
        ReadOutcome::TimedOut => Err(Error(ErrorKind::Timeout)),
    }
}

/// The answer to a write, by what the transport reported of it.
pub open spec fn spec_write_reply(state: StreamState, outcome: WriteOutcome) -> Result<(), Error> {
    if !state.can_send() {
        Err(spec_write_refusal(state))
    } else {
        match outcome {
            WriteOutcome::Written => Ok(()),
            WriteOutcome::Failed => Err(Error(ErrorKind::State)),
        }
    }
}

/// Ends a write with what the transport reported. The stream stays as it
/// was either way, so that what is written next follows what was written
/// before. On a stream that cannot be written the answer is what the
/// request would have been rejected with.
pub fn write(stream: &StreamRuntime, outcome: WriteOutcome) -> (reply: Result<(), Error>)
    ensures
        reply == spec_write_reply(stream.state, outcome),
{
    if !(is_open(&stream.state) && stream.state.sends()) {
        return Err(write_refusal(&stream.state));
    }
    match outcome {
        WriteOutcome::Written => Ok(()),
        WriteOutcome::Failed => Err(Error(ErrorKind::State)),
    }
}

} // verus!
