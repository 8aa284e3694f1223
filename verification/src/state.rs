//! The state of one connection.
//!
//! The transport's own objects (endpoint, connection, stream halves) stay
//! with the task that drives them. What is kept here is which of them the
//! task holds at the moment, and the rules by which that changes.

use vstd::prelude::*;
use crate::error::{Error, ErrorKind};
use crate::types::{SocketType, StreamType};

verus! {

/// The phase of a connection task.
#[derive(Debug, Clone, Copy, PartialEq, Eq, Structural)]
pub enum SocketStateLocal {
    /// The endpoint is not bound yet.
    Configuring,
    /// A server's bound endpoint. `incoming` tells whether the sequence of
    /// inbound connection attempts is in place, or out with an accept that
    /// is in flight.
    Listening { incoming: bool },
    /// A client's bound endpoint, with no connection yet.
    Connecting,
    /// A live connection.
    Established,
    /// The end of every connection, with the error that led there, if one did.
    Closed { cause: Option<Error> },
}

/// The two sequences of streams that the peer opens on a live connection.
#[derive(Debug, Clone, Copy, PartialEq, Eq, Structural)]
pub struct SocketStatePeer {
    pub uni_streams: bool,
    pub bi_streams: bool,
}

/// The state of one connection task.
#[derive(Debug, Clone, Copy, PartialEq, Eq, Structural)]
pub struct SocketState {
    pub local: SocketStateLocal,
    pub peer: SocketStatePeer,
}

/// The position of a phase on the way from configuring to closed.
pub open spec fn phase_rank(local: SocketStateLocal) -> nat {
    match local {
        SocketStateLocal::Configuring => 0,
        SocketStateLocal::Listening { .. } => 1,
        SocketStateLocal::Connecting => 1,
        SocketStateLocal::Established => 2,
        SocketStateLocal::Closed { .. } => 3,
    }
}

/// Whether a connection may pass from `before` to `after`: it stays where it
/// is, moves forward, or closes; and nothing follows closed.
pub open spec fn may_follow(before: SocketStateLocal, after: SocketStateLocal) -> bool {
    ||| after == before
    ||| (before is Listening && after is Listening)
    ||| (phase_rank(before) < phase_rank(after) && !(before is Configuring && after is Established))
}

impl SocketStatePeer {
    /// No stream of the peer can arrive.
    pub open spec fn spec_absent() -> SocketStatePeer {
        SocketStatePeer { uni_streams: false, bi_streams: false }
    }

    /// Both sequences are in place.
    pub open spec fn spec_present() -> SocketStatePeer {
        SocketStatePeer { uni_streams: true, bi_streams: true }
    }
}

impl SocketState {
    /// Streams of the peer arrive on a live connection only.
    pub open spec fn wf(&self) -> bool {
        (self.peer.uni_streams || self.peer.bi_streams) ==> self.local is Established
    }

    /// The role that the phase belongs to, where it is one of a socket
    /// without a connection: a socket that listens is a server's, and one
    /// that stands ready to connect is a client's.
    pub open spec fn spec_role(&self) -> Option<SocketType> {
        match self.local {
            SocketStateLocal::Listening { .. } => Some(SocketType::Server),
            SocketStateLocal::Connecting => Some(SocketType::Client),
            _ => None,
        }
    }

    pub open spec fn is_closed(&self) -> bool {
        self.local is Closed
    }

    pub open spec fn is_established(&self) -> bool {
        self.local is Established
    }

    /// The state a bind leads to from `Configuring`.
    pub open spec fn spec_bound(role: SocketType, bound: Result<(), Error>) -> SocketState {
        SocketState {
            local: match bound {
                Ok(_) => match role {
                    SocketType::Server => SocketStateLocal::Listening { incoming: true },
                    SocketType::Client => SocketStateLocal::Connecting,
                },
                Err(error) => SocketStateLocal::Closed { cause: Some(error) },
            },
            peer: SocketStatePeer::spec_absent(),
        }
    }

    /// A fresh state closed for the reason given.
    pub open spec fn spec_failed(error: Error) -> SocketState {
        SocketState {
            local: SocketStateLocal::Closed { cause: Some(error) },
            peer: SocketStatePeer::spec_absent(),
        }
    }

    /// The state after a close for the cause given.
    pub open spec fn spec_close(&self, cause: Option<Error>) -> SocketState {
        if self.local is Closed {
            *self
        } else {
            SocketState {
                local: SocketStateLocal::Closed { cause },
                peer: SocketStatePeer::spec_absent(),
            }
        }
    }

    /// The state after an attempt to take up a connection.
    pub open spec fn spec_transition_to_established(&self) -> SocketState {
        match self.local {
            SocketStateLocal::Listening { .. } | SocketStateLocal::Connecting =>
                SocketState::spec_established(),
            SocketStateLocal::Closed { .. } => *self,
            _ => SocketState::spec_failed(Error(ErrorKind::State)),
        }
    }

    /// The state of a live connection.
    pub open spec fn spec_established() -> SocketState {
        SocketState { local: SocketStateLocal::Established, peer: SocketStatePeer::spec_present() }
    }

    /// The role that the phase belongs to, where it is one of a socket
    /// without a connection.
    #[verifier::when_used_as_spec(spec_role)]
    pub fn role(&self) -> (role: Option<SocketType>)
        ensures
            role == self.spec_role(),
    {
        match self.local {
            SocketStateLocal::Listening { .. } => Some(SocketType::Server),
            SocketStateLocal::Connecting => Some(SocketType::Client),
            _ => None,
        }
    }

    /// A socket that is still to be bound.
    pub fn new() -> (state: SocketState)
        ensures
            state.local is Configuring,
            state.peer == SocketStatePeer::spec_absent(),
            state.wf(),
    {
        SocketState {
            local: SocketStateLocal::Configuring,
            peer: SocketStatePeer { uni_streams: false, bi_streams: false },
        }
    }

    /// Records how the bind went. A server then listens, a client stands
    /// ready to connect, and a bind that failed closes the socket with the
    /// error the system gave. A socket that was bound before is left alone.
    pub fn bind(&mut self, role: SocketType, bound: Result<(), Error>) -> (result: Result<(), Error>)
        ensures
            old(self).wf() ==> final(self).wf(),
            may_follow(old(self).local, final(self).local),
            old(self).local is Configuring ==> *final(self) == SocketState::spec_bound(role, bound)
                && result == bound,
            !(old(self).local is Configuring) ==> *final(self) == *old(self) && result == Err::<
                (),
                Error,
            >(Error(ErrorKind::State)),
    {
        match self.local {
            SocketStateLocal::Configuring => {
                self.peer = SocketStatePeer { uni_streams: false, bi_streams: false };
                match bound {
                    Ok(_) => {
                        match role {
                            SocketType::Server => {
                                self.local = SocketStateLocal::Listening { incoming: true };
                            },
                            SocketType::Client => {
                                self.local = SocketStateLocal::Connecting;
                            },
                        }
                    },
                    Err(error) => {
                        self.local = SocketStateLocal::Closed { cause: Some(error) };
                    },
                }
                bound
            },
            _ => Err(Error(ErrorKind::State)),
        }
    }

    /// Takes the sequence of inbound connection attempts out of a listening
    /// socket, so that one accept at most is in flight. Says whether it was
    /// there to take.
    pub fn take_incoming(&mut self) -> (taken: bool)
        ensures
            old(self).wf() ==> final(self).wf(),
            taken == (old(self).local == SocketStateLocal::Listening { incoming: true }),
            taken ==> final(self).local == (SocketStateLocal::Listening { incoming: false })
                && final(self).peer == old(self).peer,
            !taken ==> *final(self) == *old(self),
    {
        match self.local {
            SocketStateLocal::Listening { incoming: true } => {
                self.local = SocketStateLocal::Listening { incoming: false };
                true
            },
            _ => false,
        }
    }

    /// Puts the sequence of inbound connection attempts back, after an
    /// accept that took it has ended. Says whether the socket was waiting
    /// for it.
    pub fn restore_incoming(&mut self) -> (restored: bool)
        ensures
            old(self).wf() ==> final(self).wf(),
            restored == (old(self).local == SocketStateLocal::Listening { incoming: false }),
            restored ==> final(self).local == (SocketStateLocal::Listening { incoming: true })
                && final(self).peer == old(self).peer,
            !restored ==> *final(self) == *old(self),
    {
        match self.local {
            SocketStateLocal::Listening { incoming: false } => {
                self.local = SocketStateLocal::Listening { incoming: true };
                true
            },
            _ => false,
        }
    }

    /// Takes up a connection whose handshake is done. Only a socket that
    /// listens or connects can do so. On any other the call is a misuse: it
    /// is answered with a state error, and a socket that was not closed yet
    /// is closed with that error as its cause.
    pub fn transition_to_established(&mut self) -> (result: Result<(), Error>)
        ensures
            old(self).wf() ==> final(self).wf(),
            may_follow(old(self).local, final(self).local),
            *final(self) == old(self).spec_transition_to_established(),
            result == if old(self).local is Listening || old(self).local is Connecting {
                Ok::<(), Error>(())
            } else {
                Err::<(), Error>(Error(ErrorKind::State))
            },
    {
        match self.local {
            SocketStateLocal::Listening { .. } | SocketStateLocal::Connecting => {
                self.local = SocketStateLocal::Established;
                self.peer = SocketStatePeer { uni_streams: true, bi_streams: true };
                Ok(())
            },
            SocketStateLocal::Closed { .. } => Err(Error(ErrorKind::State)),
            _ => {
                self.local = SocketStateLocal::Closed { cause: Some(Error(ErrorKind::State)) };
                self.peer = SocketStatePeer { uni_streams: false, bi_streams: false };
                Err(Error(ErrorKind::State))
            },
        }
    }

    /// Notes that one of the peer's two stream sequences has ended.
    pub fn peer_streams_ended(&mut self, kind: StreamType)
        ensures
            old(self).wf() ==> final(self).wf(),
            final(self).local == old(self).local,
            final(self).peer == match kind {
                StreamType::Uni => SocketStatePeer { uni_streams: false, ..old(self).peer },
                StreamType::Bi => SocketStatePeer { bi_streams: false, ..old(self).peer },
            },
    {
        match kind {
            StreamType::Uni => {
                self.peer.uni_streams = false;
            },
            StreamType::Bi => {
                self.peer.bi_streams = false;
            },
        }
    }

    /// Closes the socket, with the error that ended it or with none. A
    /// socket that is closed already stays as it is, cause included, and the
    /// call is answered with a state error.
    pub fn close(&mut self, cause: Option<Error>) -> (result: Result<(), Error>)
        ensures
            old(self).wf() ==> final(self).wf(),
            final(self).is_closed(),
            may_follow(old(self).local, final(self).local),
            *final(self) == old(self).spec_close(cause),
            result == if old(self).is_closed() {
                Err::<(), Error>(Error(ErrorKind::State))
            } else {
                Ok::<(), Error>(())
            },
    {
        match self.local {
            SocketStateLocal::Closed { .. } => Err(Error(ErrorKind::State)),
            _ => {
                self.local = SocketStateLocal::Closed { cause };
                self.peer = SocketStatePeer { uni_streams: false, bi_streams: false };
                Ok(())
            },
        }
    }

    /// The error that closed the socket, if it is closed and an error did.
    pub fn cause(&self) -> (cause: Option<Error>)
        ensures
            cause == match self.local {
                SocketStateLocal::Closed { cause } => cause,
                _ => None::<Error>,
            },
    {
        match self.local {
            SocketStateLocal::Closed { cause } => cause,
            _ => None,
        }
    }
}

} // verus!
