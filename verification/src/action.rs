//! What a handler may decide about a packet, and what each decision puts
//! into the two writers.

use crate::packet::{error_frame, Packet, ERROR_PREFIX_LEN};
use crate::wire::MAX_PAYLOAD;
use crate::writer::ConnWriter;
use vstd::prelude::*;
use vstd::utf8::encode_utf8;

verus! {

/// Handlers return a variant of this enum to indicate how the proxy should handle the packet.
#[derive(Clone, Debug)]
pub enum Action {
    /// forward the packet unmodified
    Forward,
    /// forward a mutated packet
    Mutate(Packet),
    /// respond to the packet without forwarding
    Respond(Vec<Packet>),
    /// respond with an error packet without forwarding; a message too long
    /// for a packet to hold is answered with nothing
    Error { code: u16, state: [u8; 5], msg: String },
}

/// Packet handlers need to implement this trait
pub trait PacketHandler {
    /// The decisions that this handler may take about a request with the
    /// bytes `packet`. A handler that says nothing may take any.
    open spec fn decides_request(&self, packet: Seq<u8>, action: Action) -> bool {
        true
    }

    /// The decisions that this handler may take about a response with the
    /// bytes `packet`. A handler that says nothing may take any.
    open spec fn decides_response(&self, packet: Seq<u8>, action: Action) -> bool {
        true
    }

    /// Decides about a packet that the client sent. The packet is a whole
    /// frame.
    fn handle_request(&self, p: &Packet) -> (action: Action)
        requires
            p.wf(),
        ensures
            self.decides_request(p@, action),
    ;

    /// Decides about a packet that the server sent. The packet is a whole
    /// frame.
    fn handle_response(&self, p: &Packet) -> (action: Action)
        requires
            p.wf(),
        ensures
            self.decides_response(p@, action),
    ;
}

/// This handler simply passes packets through without adding any new behavior.
pub struct NoopHandler {}

impl PacketHandler for NoopHandler {
    open spec fn decides_request(&self, packet: Seq<u8>, action: Action) -> bool {
        action == Action::Forward
    }

    open spec fn decides_response(&self, packet: Seq<u8>, action: Action) -> bool {
        action == Action::Forward
    }

    fn handle_request(&self, p: &Packet) -> (action: Action) {
        Action::Forward
    }

    fn handle_response(&self, p: &Packet) -> (action: Action) {
        Action::Forward
    }
}

/// The bytes of each packet.
pub open spec fn views(packets: Seq<Packet>) -> Seq<Seq<u8>> {
    packets.map_values(|p: Packet| p@)
}

/// The bytes that answer a packet with an error: the error packet, or
/// nothing where the message is too long for a packet to hold.
pub open spec fn error_reply(code: u16, state: Seq<u8>, message: Seq<u8>) -> Seq<u8> {
    if ERROR_PREFIX_LEN + message.len() <= MAX_PAYLOAD {
        error_frame(code, state, message)
    } else {
        Seq::empty()
    }
}

impl Action {
    /// The bytes that this decision sends on to the peer opposite the one
    /// that sent `received`.
    pub open spec fn onward(self, received: Seq<u8>) -> Seq<u8> {
        match self {
            Action::Forward => received,
            Action::Mutate(packet) => packet@,
            Action::Respond(_) => Seq::empty(),
            Action::Error { .. } => Seq::empty(),
        }
    }

    /// The bytes that this decision sends back to the peer that sent the
    /// packet.
    pub open spec fn reply(self) -> Seq<u8> {
        match self {
            Action::Forward => Seq::empty(),
            Action::Mutate(_) => Seq::empty(),
            Action::Respond(packets) => views(packets@).flatten(),
            Action::Error { code, state, msg } => error_reply(code, state@, encode_utf8(msg@)),
        }
    }

    /// Carries the decision out on the packet `received`: queues in `onward`
    /// what goes to the opposite peer and in `back` what goes to the sender.
    pub fn apply(self, received: &Packet, onward: &mut ConnWriter, back: &mut ConnWriter)
        ensures
            final(onward)@ == old(onward)@ + self.onward(received@),
            final(back)@ == old(back)@ + self.reply(),
    {
        match self {
            Action::Forward => {
                onward.push(received);
            },
            Action::Mutate(packet) => {
                onward.push(&packet);
            },
            Action::Respond(v) => {
                let n = v.len();
                for i in 0..n
                    invariant
                        n == v@.len(),
                        onward@ == old(onward)@,
                        back@ == old(back)@ + views(v@.take(i as int)).flatten(),
                {
                    back.push(&v[i]);
                    proof {
                        let before = views(v@.take(i as int));
                        assert(views(v@.take(i + 1)) =~= before.push(v@[i as int]@));
                        before.lemma_flatten_push(v@[i as int]@);
                    }
                }
                assert(v@.take(n as int) =~= v@);
            },
            Action::Error { code, state, msg } => {
                if let Some(p) = Packet::try_error_packet(code, state, msg) {
                    back.push(&p);
                }
            },
        }
    }
}

} // verus!
