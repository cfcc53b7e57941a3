//! A byte stream seen as a run of frames: which frames it holds in full, what
//! is left over, and why the way it was cut into chunks does not matter.

use crate::wire::{is_frame, parse_length, HEADER_LEN};
use vstd::prelude::*;

verus! {

/// The stream starts with a complete frame.
pub open spec fn frame_ready(stream: Seq<u8>) -> bool {
    stream.len() >= HEADER_LEN && stream.len() >= HEADER_LEN + parse_length(stream)
}

/// The length of the frame whose header starts the stream.
pub open spec fn frame_size(stream: Seq<u8>) -> int
    recommends
        stream.len() >= HEADER_LEN,
{
    HEADER_LEN + parse_length(stream)
}

/// The complete frames at the start of the stream, in wire order.
pub open spec fn frames(stream: Seq<u8>) -> Seq<Seq<u8>>
    decreases stream.len(),
{
    if frame_ready(stream) {
        seq![stream.take(frame_size(stream))] + frames(stream.skip(frame_size(stream)))
    } else {
        Seq::empty()
    }
}

/// What is left of the stream once every complete frame has been taken off
/// its start: nothing, or the beginning of a frame that has not fully arrived.
pub open spec fn rest(stream: Seq<u8>) -> Seq<u8>
    decreases stream.len(),
{
    if frame_ready(stream) {
        rest(stream.skip(frame_size(stream)))
    } else {
        stream
    }
}

/// Every element is exactly one frame.
pub open spec fn all_frames(packets: Seq<Seq<u8>>) -> bool {
    forall|i: int| 0 <= i < packets.len() ==> is_frame(#[trigger] packets[i])
}

/// The frames that come out when the chunks arrive one by one behind the
/// bytes `pending`, and every complete frame is taken out after each chunk.
pub open spec fn fed_frames(pending: Seq<u8>, chunks: Seq<Seq<u8>>) -> Seq<Seq<u8>>
    decreases chunks.len(),
{
    if chunks.len() == 0 {
        Seq::empty()
    } else {
        frames(pending + chunks.first()) + fed_frames(
            rest(pending + chunks.first()),
            chunks.drop_first(),
        )
    }
}

/// The bytes that stay behind after the chunks of `fed_frames` have arrived.
pub open spec fn fed_rest(pending: Seq<u8>, chunks: Seq<Seq<u8>>) -> Seq<u8>
    decreases chunks.len(),
{
    if chunks.len() == 0 {
        pending
    } else {
        fed_rest(rest(pending + chunks.first()), chunks.drop_first())
    }
}

/// What is left over holds no complete frame, every frame taken out is a
/// frame, and the frames followed by the leftover are the stream.
pub proof fn lemma_frames_partition(stream: Seq<u8>)
    ensures
        !frame_ready(rest(stream)),
        all_frames(frames(stream)),
        frames(stream).flatten() + rest(stream) == stream,
    decreases stream.len(),
{
    if frame_ready(stream) {
        let n = frame_size(stream);
        let head = stream.take(n);
        let tail = stream.skip(n);
        lemma_frames_partition(tail);
        let fs = frames(stream);
        assert(fs.drop_first() =~= frames(tail));
        assert forall|i: int| 0 <= i < fs.len() implies is_frame(#[trigger] fs[i]) by {}
        assert(head + tail =~= stream);
    }
}

/// Bytes that arrive behind a stream do not change the frames already
/// complete in it: the frames of `a + b` are those of `a`, then those of what
/// `a` left over followed by `b`.
pub proof fn lemma_frames_append(a: Seq<u8>, b: Seq<u8>)
    ensures
        frames(a + b) == frames(a) + frames(rest(a) + b),
        rest(a + b) == rest(rest(a) + b),
    decreases a.len(),
{
    if frame_ready(a) {
        let n = frame_size(a);
        let ab = a + b;
        assert(ab.take(n) =~= a.take(n));
        assert(ab.skip(n) =~= a.skip(n) + b);
        lemma_frames_append(a.skip(n), b);
    }
}

/// A stream made of whole frames gives back exactly those frames, and
/// nothing is left over.
pub proof fn lemma_frames_of_packets(packets: Seq<Seq<u8>>)
    requires
        all_frames(packets),
    ensures
        frames(packets.flatten()) == packets,
        rest(packets.flatten()) == Seq::<u8>::empty(),
    decreases packets.len(),
{
    if packets.len() > 0 {
        let head = packets.first();
        let tail = packets.drop_first();
        let stream = packets.flatten();
        assert forall|i: int| 0 <= i < tail.len() implies is_frame(#[trigger] tail[i]) by {}
        lemma_frames_of_packets(tail);
        assert(stream.take(head.len() as int) =~= head);
        assert(stream.skip(head.len() as int) =~= tail.flatten());
    }
}

/// Feeding a stream chunk by chunk, and taking out the complete frames after
/// each chunk, gives the frames of the whole stream and leaves what the whole
/// stream leaves.
pub proof fn lemma_fed_is_whole(pending: Seq<u8>, chunks: Seq<Seq<u8>>)
    ensures
        frames(pending) + fed_frames(rest(pending), chunks) == frames(pending + chunks.flatten()),
        fed_rest(rest(pending), chunks) == rest(pending + chunks.flatten()),
    decreases chunks.len(),
{
    if chunks.len() > 0 {
        let first = chunks.first();
        let later = chunks.drop_first();
        let now = rest(pending) + first;
        lemma_fed_is_whole(now, later);
        lemma_frames_append(now, later.flatten());
        lemma_frames_append(pending, first + later.flatten());
        assert(rest(pending) + (first + later.flatten()) =~= now + later.flatten());
    }
}

/// A stream that is a run of whole packets, cut into chunks at any places
/// and fed to an empty reader chunk by chunk, with every complete frame taken
/// out after each chunk, yields exactly those packets, in order, and leaves
/// nothing behind.
pub proof fn lemma_chunked_stream_yields_packets(packets: Seq<Seq<u8>>, chunks: Seq<Seq<u8>>)
    requires
        all_frames(packets),
        chunks.flatten() == packets.flatten(),
    ensures
        fed_frames(Seq::empty(), chunks) == packets,
        fed_rest(Seq::empty(), chunks) == Seq::<u8>::empty(),
{
    lemma_fed_is_whole(Seq::empty(), chunks);
    lemma_frames_of_packets(packets);
}

} // verus!
