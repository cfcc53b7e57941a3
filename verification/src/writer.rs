//! The writing side of a connection: whole packets come in, bytes go out as
//! far as the socket takes them.

use crate::buffer::{discard_front, INITIAL_CAPACITY};
use crate::event::{IoOutcome, WriteEvent};
use crate::packet::{Packet, ProxyError};
use vstd::prelude::*;

verus! {

/// Buffers what is to be written to one socket.
pub struct ConnWriter {
    write_buf: Vec<u8>,
}

impl View for ConnWriter {
    type V = Seq<u8>;

    /// The bytes waiting to be written, first in first out.
    closed spec fn view(&self) -> Seq<u8> {
        self.write_buf@
    }
}

impl ConnWriter {
    /// A writer that holds nothing yet.
    pub fn new() -> (writer: ConnWriter)
        ensures
            writer@ == Seq::<u8>::empty(),
    {
        ConnWriter { write_buf: Vec::with_capacity(INITIAL_CAPACITY) }
    }

    /// The number of bytes waiting.
    pub fn write_pos(&self) -> (pos: usize)
        ensures
            pos == self@.len(),
    {
        self.write_buf.len()
    }

    /// The bytes waiting: what the next write offers to the socket.
    pub fn pending(&self) -> (bytes: &[u8])
        ensures
            bytes@ == self@,
    {
        self.write_buf.as_slice()
    }

    /// Write a packet to the write buffer
    pub fn push(&mut self, p: &Packet)
        ensures
            final(self)@ == old(self)@ + p@,
    {
        self.write_buf.extend_from_slice(p.bytes.as_slice());
    }

    /// Takes note of one attempt to write to the socket. `None` means that
    /// bytes are waiting and the socket is to be offered them; otherwise the
    /// result is how the write of this step ends.
    pub fn write(&mut self, event: WriteEvent) -> (outcome: Option<IoOutcome>)
        requires
            event matches WriteEvent::Wrote(count) ==> count <= old(self)@.len(),
        ensures
            final(self)@ == old(self)@.skip(written(event)),
            outcome == write_outcome(event, final(self)@.len()),
    {
        match event {
            WriteEvent::Begin => {},
            WriteEvent::Wrote(count) => {
                discard_front(&mut self.write_buf, count);
            },
            WriteEvent::NotReady | WriteEvent::WouldBlock => {
                return Some(IoOutcome::Pending);
            },
            WriteEvent::Failed => {
                return Some(IoOutcome::Failed(ProxyError::Transport));
            },
        }
        if self.write_buf.len() == 0 {
            Some(IoOutcome::Ready)
        } else {
            None
        }
    }
}

/// The number of bytes that the socket took at `event`.
pub open spec fn written(event: WriteEvent) -> int {
    match event {
        WriteEvent::Wrote(count) => count as int,
        _ => 0,
    }
}

/// How the write of a step ends after `event`, with `waiting` bytes still to
/// be written, or `None` where the socket is to be offered them.
pub open spec fn write_outcome(event: WriteEvent, waiting: nat) -> Option<IoOutcome> {
    match event {
        WriteEvent::NotReady | WriteEvent::WouldBlock => Some(IoOutcome::Pending),
        WriteEvent::Failed => Some(IoOutcome::Failed(ProxyError::Transport)),
        WriteEvent::Begin | WriteEvent::Wrote(_) => if waiting == 0 {
            Some(IoOutcome::Ready)
        } else {
            None
        },
    }
}

} // verus!
