//! The reading side of a connection: bytes come in as the socket gives them,
//! packets go out as soon as they are complete.

use crate::buffer::{copy_front, discard_front, INITIAL_CAPACITY};
use crate::event::{IoOutcome, ReadEvent};
use crate::packet::{Packet, ProxyError};
use crate::stream::{frame_ready, frame_size};
use crate::wire::{parse_packet_length, HEADER_LEN};
use vstd::prelude::*;

verus! {

/// Buffers what has been read from one socket and not yet framed.
pub struct ConnReader {
    read_buf: Vec<u8>,
}

impl View for ConnReader {
    type V = Seq<u8>;

    /// The bytes read and not yet handed out as packets, in wire order.
    closed spec fn view(&self) -> Seq<u8> {
        self.read_buf@
    }
}

impl ConnReader {
    /// A reader that holds nothing yet.
    pub fn new() -> (reader: ConnReader)
        ensures
            reader@ == Seq::<u8>::empty(),
    {
        ConnReader { read_buf: Vec::with_capacity(INITIAL_CAPACITY) }
    }

    /// The number of bytes buffered.
    pub fn read_pos(&self) -> (pos: usize)
        ensures
            pos == self@.len(),
    {
        self.read_buf.len()
    }

    /// The bytes buffered.
    pub fn buffered(&self) -> (bytes: &[u8])
        ensures
            bytes@ == self@,
    {
        self.read_buf.as_slice()
    }

    /// Takes in bytes that the socket gave, behind those already buffered.
    pub fn feed(&mut self, chunk: &[u8])
        ensures
            final(self)@ == old(self)@ + chunk@,
    {
        self.read_buf.extend_from_slice(chunk);
    }

    /// Takes note of one attempt to read from the socket. `None` means that
    /// the socket gave bytes, which are now buffered, and is to be read again;
    /// otherwise the result is how the read of this step ends.
    pub fn read(&mut self, event: ReadEvent) -> (outcome: Option<IoOutcome>)
        ensures
            outcome == read_outcome(event),
            final(self)@ == old(self)@ + read_bytes(event),
    {
        match event {
            ReadEvent::Data(chunk) => {
                if chunk.len() == 0 {
                    Some(IoOutcome::Failed(ProxyError::ConnectionClosed))
                } else {
                    self.feed(chunk.as_slice());
                    None
                }
            },
            ReadEvent::NotReady | ReadEvent::WouldBlock => {
                Some(IoOutcome::Pending)
            },
            ReadEvent::Failed => {
                Some(IoOutcome::Failed(ProxyError::Transport))
            },
        }
    }

    /// Hands out the packet at the start of the buffer, if it is complete,
    /// and shifts what follows it down to the start.
    pub fn next(&mut self) -> (packet: Option<Packet>)
        ensures
            match packet {
                Some(p) => {
                    &&& frame_ready(old(self)@)
                    &&& p@ == old(self)@.take(frame_size(old(self)@))
                    &&& p.wf()
                    &&& final(self)@ == old(self)@.skip(frame_size(old(self)@))
                },
                None => !frame_ready(old(self)@) && final(self)@ == old(self)@,
            },
    {
        // do we have a header
        if self.read_buf.len() >= HEADER_LEN {
            let l = parse_packet_length(self.read_buf.as_slice());
            // do we have the whole packet?
            let s = HEADER_LEN + l;
            if self.read_buf.len() >= s {
                let p = Packet { bytes: copy_front(&self.read_buf, s) };
                discard_front(&mut self.read_buf, s);
                Some(p)
            } else {
                None
            }
        } else {
            None
        }
    }
}

/// How the read of a step ends after `event`, or `None` where the socket is
/// to be read again.
pub open spec fn read_outcome(event: ReadEvent) -> Option<IoOutcome> {
    match event {
        ReadEvent::NotReady | ReadEvent::WouldBlock => Some(IoOutcome::Pending),
        ReadEvent::Data(chunk) => if chunk@.len() == 0 {
            Some(IoOutcome::Failed(ProxyError::ConnectionClosed))
        } else {
            None
        },
        ReadEvent::Failed => Some(IoOutcome::Failed(ProxyError::Transport)),
    }
}

/// The bytes that `event` brings.
pub open spec fn read_bytes(event: ReadEvent) -> Seq<u8> {
    match event {
        ReadEvent::Data(chunk) => chunk@,
        _ => Seq::empty(),
    }
}

} // verus!
