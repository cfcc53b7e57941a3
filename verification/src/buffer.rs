//! What the reader and the writer do to their byte buffers.

use vstd::prelude::*;
use vstd::slice::slice_subrange;

verus! {

/// Capacity that a buffer starts with.
pub const INITIAL_CAPACITY: usize = 4096;

/// A copy of the first `count` bytes of `buf`.
pub(crate) fn copy_front(buf: &Vec<u8>, count: usize) -> (front: Vec<u8>)
    requires
        count <= buf@.len(),
    ensures
        front@ == buf@.take(count as int),
{
    let mut front: Vec<u8> = Vec::with_capacity(count);
    front.extend_from_slice(slice_subrange(buf.as_slice(), 0, count));
    front
}

/// Removes the first `count` bytes of `buf` and shifts the bytes behind them
/// down to the start.
pub(crate) fn discard_front(buf: &mut Vec<u8>, count: usize)
    requires
        count <= old(buf)@.len(),
    ensures
        final(buf)@ == old(buf)@.skip(count as int),
{
    let len = buf.len();
    // shift data down
    let mut j: usize = 0;
    for i in count..len
        invariant
            count <= len,
            j == i - count,
            buf@.len() == len,
            len == old(buf)@.len(),
            forall|k: int| 0 <= k < j ==> buf@[k] == old(buf)@[k + count],
            forall|k: int| i <= k < len ==> buf@[k] == old(buf)@[k],
    {
        let byte = buf[i];
        buf[j] = byte;
        j += 1;
    }
    buf.truncate(len - count);
}

} // verus!
