//! A transparent proxy core for the MySQL client/server wire protocol.
//!
//! The crate frames the length-prefixed packet stream of either peer, lets a
//! [`PacketHandler`] decide what happens to each packet, and queues the result
//! for the peer that is to receive it. Every function is verified against a
//! contract stated over byte sequences.

pub mod action;
pub mod buffer;
pub mod event;
pub mod packet;
pub mod pipe;
pub mod reader;
pub mod step;
pub mod stream;
pub mod wire;
pub mod writer;

pub use action::{Action, NoopHandler, PacketHandler};
pub use event::{IoOutcome, ReadEvent, WriteEvent};
pub use packet::{Packet, PacketType, ProxyError};
pub use pipe::{relay, Direction, Pipe};
pub use reader::ConnReader;
pub use step::{half_close_peer, step_outcome, Flow, StepOutcome};
pub use wire::parse_packet_length;
pub use writer::ConnWriter;
