//! The pipe: the two readers and the two writers of one client/server pair,
//! coupled through a handler.

use crate::action::{views, Action, PacketHandler};
use crate::packet::Packet;
use crate::reader::ConnReader;
use crate::stream::{frames, rest};
use crate::writer::ConnWriter;
use vstd::prelude::*;
use vstd::seq_lib::lemma_flatten_concat;

verus! {

/// Which peer sent the packets that are being relayed.
#[derive(Clone, Copy, Debug, PartialEq, Eq, Structural)]
pub enum Direction {
    /// From the client to the server.
    Request,
    /// From the server to the client.
    Response,
}

/// The buffers of one client/server pair and the handler that couples them.
/// The sockets themselves stay with whoever drives the pipe: what they give
/// is fed to the readers, what the writers hold is offered to them.
pub struct Pipe<H: PacketHandler> {
    /// What the client has sent and is not yet framed.
    pub client_reader: ConnReader,
    /// What waits to be written to the client.
    pub client_writer: ConnWriter,
    /// What the server has sent and is not yet framed.
    pub server_reader: ConnReader,
    /// What waits to be written to the server.
    pub server_writer: ConnWriter,
    /// Decides about every packet, in either direction.
    pub handler: H,
}

/// The bytes sent on to the opposite peer when `actions[i]` is what was
/// decided about `packets[i]`.
pub open spec fn onward_bytes(packets: Seq<Seq<u8>>, actions: Seq<Action>) -> Seq<u8> {
    Seq::new(actions.len(), |i: int| actions[i].onward(packets[i])).flatten()
}

/// The bytes sent back to the sender by the decisions `actions`.
pub open spec fn reply_bytes(actions: Seq<Action>) -> Seq<u8> {
    Seq::new(actions.len(), |i: int| actions[i].reply()).flatten()
}

/// `action` is a decision that the handler may take about `packet`, which
/// travels in `direction`.
pub open spec fn decided<H: PacketHandler>(
    handler: &H,
    direction: Direction,
    packet: Seq<u8>,
    action: Action,
) -> bool {
    match direction {
        Direction::Request => handler.decides_request(packet, action),
        Direction::Response => handler.decides_response(packet, action),
    }
}

/// The writers have taken in what the decisions `actions` send on and send
/// back, where `actions` holds, in the order of `packets`, one decision of
/// the handler about each.
pub open spec fn relayed<H: PacketHandler>(
    handler: &H,
    direction: Direction,
    packets: Seq<Seq<u8>>,
    actions: Seq<Action>,
    onward_before: Seq<u8>,
    onward_after: Seq<u8>,
    back_before: Seq<u8>,
    back_after: Seq<u8>,
) -> bool {
    &&& actions.len() == packets.len()
    &&& forall|i: int|
        0 <= i < actions.len() ==> decided(handler, direction, packets[i], #[trigger] actions[i])
    &&& onward_after == onward_before + onward_bytes(packets, actions)
    &&& back_after == back_before + reply_bytes(actions)
}

/// Takes every complete packet out of `reader`, in wire order, asks the
/// handler about each and carries its decision out. Whatever the handler
/// decides, the reader keeps only the incomplete end of its stream, and the
/// writers take in exactly what the handler's decisions, one for each packet,
/// send on and back.
pub fn relay<H: PacketHandler>(
    handler: &H,
    direction: Direction,
    reader: &mut ConnReader,
    onward: &mut ConnWriter,
    back: &mut ConnWriter,
)
    ensures
        final(reader)@ == rest(old(reader)@),
        exists|actions: Seq<Action>|
            relayed(
                handler,
                direction,
                frames(old(reader)@),
                actions,
                old(onward)@,
                final(onward)@,
                old(back)@,
                final(back)@,
            ),
{
    let ghost mut done: Seq<Seq<u8>> = Seq::empty();
    let ghost mut actions: Seq<Action> = Seq::empty();
    loop
        invariant
            frames(old(reader)@) == done + frames(reader@),
            rest(old(reader)@) == rest(reader@),
            relayed(handler, direction, done, actions, old(onward)@, onward@, old(back)@, back@),
        ensures
            reader@ == rest(old(reader)@),
            relayed(
                handler,
                direction,
                frames(old(reader)@),
                actions,
                old(onward)@,
                onward@,
                old(back)@,
                back@,
            ),
        decreases reader@.len(),
    {
        let packet = match reader.next() {
            Some(packet) => packet,
            None => break ,
        };
        let action = match direction {
            Direction::Request => handler.handle_request(&packet),
            Direction::Response => handler.handle_response(&packet),
        };
        let ghost taken = action;
        action.apply(&packet, onward, back);
        proof {
            let sent = Seq::new(actions.len(), |i: int| actions[i].onward(done[i]));
            let answered = Seq::new(actions.len(), |i: int| actions[i].reply());
            let done_next = done.push(packet@);
            let actions_next = actions.push(taken);
            assert(Seq::new(actions_next.len(), |i: int| actions_next[i].onward(done_next[i]))
                =~= sent.push(taken.onward(packet@)));
            assert(Seq::new(actions_next.len(), |i: int| actions_next[i].reply())
                =~= answered.push(taken.reply()));
            sent.lemma_flatten_push(taken.onward(packet@));
            answered.lemma_flatten_push(taken.reply());
            assert(onward@ =~= old(onward)@ + onward_bytes(done_next, actions_next));
            assert(back@ =~= old(back)@ + reply_bytes(actions_next));
            assert forall|i: int| 0 <= i < actions_next.len() implies decided(
                handler,
                direction,
                done_next[i],
                #[trigger] actions_next[i],
            ) by {
                if i < actions.len() {
                    assert(decided(handler, direction, done[i], actions[i]));
                }
            }
            done = done_next;
            actions = actions_next;
        }
    }
}

impl<H: PacketHandler> Pipe<H> {
    /// A pipe with empty buffers.
    pub fn new(handler: H) -> (pipe: Pipe<H>)
        ensures
            pipe.client_reader@ == Seq::<u8>::empty(),
            pipe.client_writer@ == Seq::<u8>::empty(),
            pipe.server_reader@ == Seq::<u8>::empty(),
            pipe.server_writer@ == Seq::<u8>::empty(),
            pipe.handler == handler,
    {
        Pipe {
            client_reader: ConnReader::new(),
            client_writer: ConnWriter::new(),
            server_reader: ConnReader::new(),
            server_writer: ConnWriter::new(),
            handler: handler,
        }
    }

    /// Relays the requests that have arrived in full: what the handler lets
    /// through goes to the server, what it answers goes back to the client.
    pub fn process_requests(&mut self)
        ensures
            final(self).client_reader@ == rest(old(self).client_reader@),
            final(self).server_reader == old(self).server_reader,
            final(self).handler == old(self).handler,
            exists|actions: Seq<Action>|
                relayed(
                    &old(self).handler,
                    Direction::Request,
                    frames(old(self).client_reader@),
                    actions,
                    old(self).server_writer@,
                    final(self).server_writer@,
                    old(self).client_writer@,
                    final(self).client_writer@,
                ),
    {
        relay(
            &self.handler,
            Direction::Request,
            &mut self.client_reader,
            &mut self.server_writer,
            &mut self.client_writer,
        );
        proof {
            let actions = choose|actions: Seq<Action>|
                relayed(
                    &old(self).handler,
                    Direction::Request,
                    frames(old(self).client_reader@),
                    actions,
                    old(self).server_writer@,
                    self.server_writer@,
                    old(self).client_writer@,
                    self.client_writer@,
                );
        }
    }

    /// Relays the responses that have arrived in full: what the handler lets
    /// through goes to the client, what it answers goes back to the server.
    pub fn process_responses(&mut self)
        ensures
            final(self).server_reader@ == rest(old(self).server_reader@),
            final(self).client_reader == old(self).client_reader,
            final(self).handler == old(self).handler,
            exists|actions: Seq<Action>|
                relayed(
                    &old(self).handler,
                    Direction::Response,
                    frames(old(self).server_reader@),
                    actions,
                    old(self).client_writer@,
                    final(self).client_writer@,
                    old(self).server_writer@,
                    final(self).server_writer@,
                ),
    {
        relay(
            &self.handler,
            Direction::Response,
            &mut self.server_reader,
            &mut self.client_writer,
            &mut self.server_writer,
        );
        proof {
            let actions = choose|actions: Seq<Action>|
                relayed(
                    &old(self).handler,
                    Direction::Response,
                    frames(old(self).server_reader@),
                    actions,
                    old(self).client_writer@,
                    self.client_writer@,
                    old(self).server_writer@,
                    self.server_writer@,
                );
        }
    }
}

/// Parts that are all empty join to nothing.
proof fn lemma_flatten_empties(parts: Seq<Seq<u8>>)
    requires
        forall|i: int| 0 <= i < parts.len() ==> (#[trigger] parts[i]).len() == 0,
    ensures
        parts.flatten() == Seq::<u8>::empty(),
    decreases parts.len(),
{
    if parts.len() > 0 {
        let tail = parts.drop_first();
        assert forall|i: int| 0 <= i < tail.len() implies (#[trigger] tail[i]).len() == 0 by {}
        lemma_flatten_empties(tail);
    }
}

/// Joining parts is joining those before `at`, the part at `at` and those
/// behind it.
proof fn lemma_flatten_around(parts: Seq<Seq<u8>>, at: int)
    requires
        0 <= at < parts.len(),
    ensures
        parts.flatten() == parts.take(at).flatten() + parts[at] + parts.skip(at + 1).flatten(),
{
    let middle = seq![parts[at]];
    assert(parts =~= parts.take(at) + middle + parts.skip(at + 1));
    lemma_flatten_concat(parts.take(at) + middle, parts.skip(at + 1));
    lemma_flatten_concat(parts.take(at), middle);
    middle.lemma_flatten_one_element();
}

/// Pass-through: where every packet is forwarded, the bytes sent on are the
/// packets themselves, in order, and nothing is sent back.
pub proof fn lemma_pass_through(packets: Seq<Seq<u8>>, actions: Seq<Action>)
    requires
        actions.len() == packets.len(),
        forall|i: int| 0 <= i < actions.len() ==> #[trigger] actions[i] == Action::Forward,
    ensures
        onward_bytes(packets, actions) == packets.flatten(),
        reply_bytes(actions) == Seq::<u8>::empty(),
{
    assert(Seq::new(actions.len(), |i: int| actions[i].onward(packets[i])) =~= packets);
    lemma_flatten_empties(Seq::new(actions.len(), |i: int| actions[i].reply()));
}

/// Pass-through: with a handler that forwards every packet, the bytes that a
/// relay sends on, followed by the incomplete end that the reader keeps, are
/// the stream that was received, and nothing is sent back.
pub proof fn lemma_forwarding_handler_passes_through<H: PacketHandler>(
    handler: &H,
    direction: Direction,
    stream: Seq<u8>,
    actions: Seq<Action>,
    onward_before: Seq<u8>,
    onward_after: Seq<u8>,
    back_before: Seq<u8>,
    back_after: Seq<u8>,
)
    requires
        forall|packet: Seq<u8>, action: Action| #[trigger]
            decided(handler, direction, packet, action) ==> action == Action::Forward,
        relayed(
            handler,
            direction,
            frames(stream),
            actions,
            onward_before,
            onward_after,
            back_before,
            back_after,
        ),
    ensures
        onward_after + rest(stream) == onward_before + stream,
        back_after == back_before,
{
    assert forall|i: int| 0 <= i < actions.len() implies #[trigger] actions[i]
        == Action::Forward by {
        assert(decided(handler, direction, frames(stream)[i], actions[i]));
    }
    lemma_pass_through(frames(stream), actions);
    crate::stream::lemma_frames_partition(stream);
    assert(onward_before + frames(stream).flatten() + rest(stream) =~= onward_before + (frames(
        stream,
    ).flatten() + rest(stream)));
    assert(back_before + Seq::<u8>::empty() =~= back_before);
}

/// Mutation: where the packet at `at` is replaced and every other packet is
/// forwarded, the bytes sent on are the packets with the replacement in the
/// place of the one received, and nothing is sent back.
pub proof fn lemma_mutation(
    packets: Seq<Seq<u8>>,
    actions: Seq<Action>,
    at: int,
    replacement: Packet,
)
    requires
        actions.len() == packets.len(),
        0 <= at < actions.len(),
        actions[at] == Action::Mutate(replacement),
        forall|i: int|
            0 <= i < actions.len() && i != at ==> #[trigger] actions[i] == Action::Forward,
    ensures
        onward_bytes(packets, actions) == packets.update(at, replacement@).flatten(),
        reply_bytes(actions) == Seq::<u8>::empty(),
{
    assert(Seq::new(actions.len(), |i: int| actions[i].onward(packets[i])) =~= packets.update(
        at,
        replacement@,
    ));
    lemma_flatten_empties(Seq::new(actions.len(), |i: int| actions[i].reply()));
}

/// Intercept: where the packet at `at` is answered and every other packet is
/// forwarded, the bytes sent on are the other packets, with nothing in the
/// place of the one answered, and the bytes sent back are the answers in
/// their order; a single answer is sent back as it is.
pub proof fn lemma_intercept(
    packets: Seq<Seq<u8>>,
    actions: Seq<Action>,
    at: int,
    answers: Vec<Packet>,
)
    requires
        actions.len() == packets.len(),
        0 <= at < actions.len(),
        actions[at] == Action::Respond(answers),
        forall|i: int|
            0 <= i < actions.len() && i != at ==> #[trigger] actions[i] == Action::Forward,
    ensures
        onward_bytes(packets, actions) == packets.remove(at).flatten(),
        reply_bytes(actions) == views(answers@).flatten(),
        answers@.len() == 1 ==> reply_bytes(actions) == answers@[0]@,
{
    let sent = Seq::new(actions.len(), |i: int| actions[i].onward(packets[i]));
    let answered = Seq::new(actions.len(), |i: int| actions[i].reply());

    lemma_flatten_around(sent, at);
    assert(sent.take(at) =~= packets.take(at));
    assert(sent.skip(at + 1) =~= packets.skip(at + 1));
    lemma_flatten_concat(packets.take(at), packets.skip(at + 1));

    lemma_flatten_around(answered, at);
    lemma_flatten_empties(answered.take(at));
    lemma_flatten_empties(answered.skip(at + 1));
    if answers@.len() == 1 {
        views(answers@).lemma_flatten_one_element();
    }
}

} // verus!
