//! The state of one stream.

use vstd::prelude::*;
use crate::error::{Error, ErrorKind};
use crate::types::{ConnectionOwner, StreamType};

verus! {

/// The phase of a stream task.
#[derive(Debug, Clone, Copy, PartialEq, Eq, Structural)]
pub enum StreamStateLocal {
    /// The stream was asked for and the transport has not opened it yet.
    Pending,
    /// The stream is open.
    Open,
    /// The end of every stream.
    Closed,
}

/// What the stream task keeps of the peer's side. Nothing, so far: reads are
/// made on request only.
#[derive(Debug, Clone, Copy, PartialEq, Eq, Structural, Default)]
pub struct StreamStatePeer;

/// The state of one stream task: its phase, and the kind and owner that
/// the stream has for life. Kind and owner settle which halves of the
/// stream this side holds.
#[derive(Debug, Clone, Copy, PartialEq, Eq, Structural)]
pub struct StreamState {
    pub local: StreamStateLocal,
    pub kind: StreamType,
    pub owner: ConnectionOwner,
}

/// Whether the side that holds a stream of this kind, opened by `owner`, can
/// write to it: both sides of a bidirectional stream can, and of a
/// unidirectional one only the side that opened it.
pub open spec fn holds_send(kind: StreamType, owner: ConnectionOwner) -> bool {
    kind == StreamType::Bi || owner == ConnectionOwner::Host
}

/// Whether the side that holds a stream of this kind, opened by `owner`, can
/// read from it: both sides of a bidirectional stream can, and of a
/// unidirectional one only the side that did not open it.
pub open spec fn holds_recv(kind: StreamType, owner: ConnectionOwner) -> bool {
    kind == StreamType::Bi || owner == ConnectionOwner::Peer
}

impl StreamState {
    /// Only a stream that this side opens is ever pending: one that the
    /// peer opened is open when this side hears of it.
    pub open spec fn wf(&self) -> bool {
        self.local is Pending ==> self.owner == ConnectionOwner::Host
    }

    pub open spec fn is_closed(&self) -> bool {
        self.local is Closed
    }

    /// Whether the stream runs from this side to the peer.
    pub open spec fn spec_sends(&self) -> bool {
        holds_send(self.kind, self.owner)
    }

    /// Whether the stream runs from the peer to this side.
    pub open spec fn spec_receives(&self) -> bool {
        holds_recv(self.kind, self.owner)
    }

    /// Whether a write can be made now: the stream is open and this side
    /// holds its send half.
    pub open spec fn can_send(&self) -> bool {
        self.local is Open && self.spec_sends()
    }

    /// Whether a read can be made now: the stream is open and this side
    /// holds its receive half.
    pub open spec fn can_recv(&self) -> bool {
        self.local is Open && self.spec_receives()
    }

    /// The state of an open stream of the kind given that `owner` opened.
    pub open spec fn spec_open(kind: StreamType, owner: ConnectionOwner) -> StreamState {
        StreamState { local: StreamStateLocal::Open, kind, owner }
    }

    /// The state of a stream of the kind given that this side has asked
    /// for.
    pub open spec fn spec_pending(kind: StreamType) -> StreamState {
        StreamState { local: StreamStateLocal::Pending, kind, owner: ConnectionOwner::Host }
    }

    /// The same stream, closed.
    pub open spec fn spec_closed(&self) -> StreamState {
        StreamState { local: StreamStateLocal::Closed, ..*self }
    }

    /// Whether the stream runs from this side to the peer.
    #[verifier::when_used_as_spec(spec_sends)]
    pub fn sends(&self) -> (held: bool)
        ensures
            held == self.spec_sends(),
    {
        match self.kind {
            StreamType::Bi => true,
            StreamType::Uni => match self.owner {
                ConnectionOwner::Host => true,
                ConnectionOwner::Peer => false,
            },
        }
    }

    /// Whether the stream runs from the peer to this side.
    #[verifier::when_used_as_spec(spec_receives)]
    pub fn receives(&self) -> (held: bool)
        ensures
            held == self.spec_receives(),
    {
        match self.kind {
            StreamType::Bi => true,
            StreamType::Uni => match self.owner {
                ConnectionOwner::Host => false,
                ConnectionOwner::Peer => true,
            },
        }
    }

    /// A stream that this side has asked the transport to open.
    pub fn pending(kind: StreamType) -> (state: StreamState)
        ensures
            state == StreamState::spec_pending(kind),
            state.wf(),
    {
        StreamState { local: StreamStateLocal::Pending, kind, owner: ConnectionOwner::Host }
    }

    /// An open stream of the kind given that `owner` opened.
    pub fn open(kind: StreamType, owner: ConnectionOwner) -> (state: StreamState)
        ensures
            state == StreamState::spec_open(kind, owner),
            state.wf(),
    {
        StreamState { local: StreamStateLocal::Open, kind, owner }
    }

    /// Records how the opening of a pending stream went: it is then open,
    /// or closed. Any other stream is left alone and the call answered
    /// with a state error.
    pub fn opened(&mut self, outcome: Result<(), Error>) -> (result: Result<(), Error>)
        ensures
            old(self).wf() ==> final(self).wf(),
            final(self).kind == old(self).kind,
            final(self).owner == old(self).owner,
            final(self).local == if !(old(self).local is Pending) {
                old(self).local
            } else if outcome is Ok {
                StreamStateLocal::Open
            } else {
                StreamStateLocal::Closed
            },
            result == if old(self).local is Pending {
                outcome
            } else {
                Err::<(), Error>(Error(ErrorKind::State))
            },
    {
        match self.local {
            StreamStateLocal::Pending => {
                match outcome {
                    Ok(_) => {
                        self.local = StreamStateLocal::Open;
                    },
                    Err(_) => {
                        self.local = StreamStateLocal::Closed;
                    },
                }
                outcome
            },
            _ => Err(Error(ErrorKind::State)),
        }
    }

    /// Closes the stream. A stream that is closed already is answered with a
    /// state error.
    pub fn close(&mut self) -> (result: Result<(), Error>)
        ensures
            *final(self) == old(self).spec_closed(),
            final(self).wf(),
            result == if old(self).is_closed() {
                Err::<(), Error>(Error(ErrorKind::State))
            } else {
                Ok::<(), Error>(())
            },
    {
        match self.local {
            StreamStateLocal::Closed => Err(Error(ErrorKind::State)),
            _ => {
                self.local = StreamStateLocal::Closed;
                Ok(())
            },
        }
    }
}

} // verus!
