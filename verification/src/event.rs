//! What the sockets report to the proxy, and what the proxy makes of it.

use crate::packet::ProxyError;
use vstd::prelude::*;

verus! {

/// How a poll of one direction of one socket ended.
#[derive(Clone, Copy, Debug, PartialEq, Eq, Structural)]
pub enum IoOutcome {
    /// Nothing is left to do in this direction for now.
    Ready,
    /// The socket cannot take or give bytes yet.
    Pending,
    /// The direction has ended or failed.
    Failed(ProxyError),
}

/// What came of one attempt to read from a socket.
#[derive(Debug, PartialEq, Eq)]
pub enum ReadEvent {
    /// The socket does not report itself readable.
    NotReady,
    /// The read would have blocked.
    WouldBlock,
    /// The read returned these bytes; none at all at the end of the stream.
    Data(Vec<u8>),
    /// The read failed otherwise.
    Failed,
}

/// What came of one attempt to write to a socket.
#[derive(Clone, Copy, Debug, PartialEq, Eq, Structural)]
pub enum WriteEvent {
    /// Nothing was attempted yet.
    Begin,
    /// The socket does not report itself writable.
    NotReady,
    /// The write would have blocked.
    WouldBlock,
    /// The socket took this many of the bytes offered.
    Wrote(usize),
    /// The write failed otherwise.
    Failed,
}

} // verus!
