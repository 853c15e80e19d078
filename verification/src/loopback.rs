//! A transport device that hands every frame written to it back to its
//! reader.

use crate::io::{copy_prefix, IoPoll};
use std::collections::VecDeque;
use vstd::prelude::*;

verus! {

/// The loopback device: the frames that were written and not yet read,
/// oldest first, and whether a reader waits for the next one.
#[derive(Debug)]
pub struct Loopback {
    queue: VecDeque<Vec<u8>>,
    parked: bool,
}

impl Loopback {
    /// The frames that wait to be read, oldest first.
    pub closed spec fn frames(&self) -> Seq<Seq<u8>> {
        Seq::new(self.queue@.len(), |i: int| self.queue@[i]@)
    }

    /// A reader found the device empty and has not been woken since.
    pub closed spec fn parked(&self) -> bool {
        self.parked
    }

    /// An empty device.
    pub fn new() -> (dev: Loopback)
        ensures
            dev.frames() == Seq::<Seq<u8>>::empty(),
            !dev.parked(),
    {
        let dev = Loopback { queue: VecDeque::new(), parked: false };
        assert(dev.frames() =~= Seq::<Seq<u8>>::empty());
        dev
    }

    /// The length of the oldest frame that waits to be read, if there is
    /// one.
    pub fn front_len(&self) -> (len: Option<usize>)
        ensures
            len == if self.frames().len() == 0 {
                None::<usize>
            } else {
                Some(self.frames()[0].len() as usize)
            },
    {
        if self.queue.len() == 0 {
            None
        } else {
            Some(self.queue[0].len())
        }
    }

    /// Reads the oldest frame into the start of `buf`. With no frame
    /// waiting the reader is parked, and `buf` stays as it is.
    ///
    /// A frame is read whole: `buf` must have room for it.
    pub fn poll_read(&mut self, buf: &mut [u8]) -> (r: IoPoll)
        requires
            old(self).frames().len() > 0 ==> old(self).frames()[0].len() <= old(buf)@.len(),
        ensures
            old(self).frames().len() == 0 ==> {
                &&& r == IoPoll::Pending
                &&& final(self).parked()
                &&& final(self).frames() == old(self).frames()
                &&& final(buf)@ == old(buf)@
            },
            old(self).frames().len() > 0 ==> {
                let frame = old(self).frames()[0];
                &&& r == IoPoll::Ready(Ok(frame.len() as usize))
                &&& final(self).parked() == old(self).parked()
                &&& final(self).frames() == old(self).frames().drop_first()
                &&& final(buf)@ == frame + old(buf)@.skip(frame.len() as int)
            },
    {
        match self.queue.pop_front() {
            Some(pkt) => {
                assert(pkt@ == old(self).frames()[0]);
                assert(self.frames() =~= old(self).frames().drop_first());
                let n = copy_prefix(buf, pkt.as_slice());
                assert(pkt@.take(n as int) =~= pkt@);
                IoPoll::Ready(Ok(n))
            },
            None => {
                self.parked = true;
                assert(self.frames() =~= old(self).frames());
                IoPoll::Pending
            },
        }
    }

    /// Appends a copy of `buf` as the newest frame. The write never waits.
    /// The second part of the result tells whether a parked reader is to be
    /// woken; if so it is no longer parked.
    pub fn poll_write(&mut self, buf: &[u8]) -> (r: (IoPoll, bool))
        ensures
            r.0 == IoPoll::Ready(Ok(buf@.len() as usize)),
            r.1 == old(self).parked(),
            !final(self).parked(),
            final(self).frames() == old(self).frames().push(buf@),
    {
        let frame = vstd::slice::slice_to_vec(buf);
        self.queue.push_back(frame);
        let wake = self.parked;
        self.parked = false;
        assert(self.frames() =~= old(self).frames().push(buf@));
        (IoPoll::Ready(Ok(buf.len())), wake)
    }

    /// Nothing is buffered on the way to the queue: a flush is done at
    /// once.
    pub fn poll_flush(&self) -> (r: Result<(), crate::fault::Fault>)
        ensures
            r is Ok,
    {
        Ok(())
    }

    /// The device has nothing to close: a shutdown is done at once.
    pub fn poll_shutdown(&self) -> (r: Result<(), crate::fault::Fault>)
        ensures
            r is Ok,
    {
        Ok(())
    }
}

} // verus!
