//! Values that stand for the outcome of a poll, and copies into a caller's
//! buffer.

use crate::fault::Fault;
use vstd::prelude::*;

verus! {

/// The outcome of polling an operation that moves bytes.
#[derive(Clone, Copy, Debug, PartialEq, Eq)]
pub enum IoPoll {
    /// The operation cannot complete now. The caller is woken when it is
    /// worth trying again.
    Pending,
    /// The operation is over: so many bytes were moved, or it failed.
    Ready(Result<usize, Fault>),
}

/// The outcome of polling a queue.
#[derive(Debug)]
pub enum Polled<T> {
    /// The queue is empty.
    Pending,
    /// The queue is empty, and nothing will be put into it any more.
    Closed,
    /// The item that was at the head of the queue.
    Item(T),
}

/// The smaller of two lengths.
pub open spec fn shorter(a: int, b: int) -> int {
    if a <= b {
        a
    } else {
        b
    }
}

/// Copies `data` to the start of `buf`, as far as `buf` has room, and
/// returns the number of bytes copied. The rest of `buf` stays as it is.
pub fn copy_prefix(buf: &mut [u8], data: &[u8]) -> (n: usize)
    ensures
        n == shorter(data@.len() as int, old(buf)@.len() as int),
        final(buf)@ == data@.take(n as int) + old(buf)@.skip(n as int),
{
    let n = if data.len() <= buf.len() {
        data.len()
    } else {
        buf.len()
    };
    let mut i: usize = 0;
    while i < n
        invariant
            i <= n,
            n <= data@.len(),
            n <= buf@.len(),
            buf@.len() == old(buf)@.len(),
            forall|j: int| 0 <= j < i ==> buf@[j] == data@[j],
            forall|j: int| i <= j < buf@.len() ==> buf@[j] == old(buf)@[j],
        decreases n - i,
    {
        buf[i] = data[i];
        i += 1;
    }
    assert(buf@ =~= data@.take(n as int) + old(buf)@.skip(n as int));
    n
}

} // verus!
