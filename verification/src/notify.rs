//! How the owner of a connection hears of the streams its peer opens.

use vstd::prelude::*;
use crate::conn::Stream;
use crate::error::Error;
use crate::types::StreamType;

verus! {

/// The sink for announcements of streams that the peer opened. How an
/// announcement is delivered is the implementor's matter, and so is when
/// delivery fails.
pub trait Notify {
    /// Called when the peer has opened a bidirectional stream.
    fn peer_bi_stream(&self, stream: Stream) -> Result<(), Error>;

    /// Called when the peer has opened a unidirectional stream.
    fn peer_uni_stream(&self, stream: Stream) -> Result<(), Error>;
}

/// Announces a stream of the kind given to the sink, by the call that is
/// meant for that kind, and returns what the sink returned.
pub fn notify<N: Notify>(sink: &N, kind: StreamType, stream: Stream) -> (result: Result<(), Error>)
    ensures
        kind == StreamType::Bi ==> N::peer_bi_stream.ensures((sink, stream), result),
        kind == StreamType::Uni ==> N::peer_uni_stream.ensures((sink, stream), result),
{
    match kind {
        StreamType::Bi => sink.peer_bi_stream(stream),
        StreamType::Uni => sink.peer_uni_stream(stream),
    }
}

} // verus!
