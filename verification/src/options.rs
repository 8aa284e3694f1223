//! Options that a caller may set on a socket or stream.

use vstd::prelude::*;

verus! {

/// The options of a socket or a stream.
#[derive(Debug, Clone, Copy, PartialEq, Eq, Structural)]
pub struct QuicOptions {
    /// The deadline, in milliseconds, of the operations that wait; `None`
    /// waits without limit.
    pub timeout: Option<u64>,
}

} // verus!
