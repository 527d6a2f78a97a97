//! Bounded byte link: a single-producer/single-consumer FIFO byte queue
//! with a fixed capacity, one per bus direction. Standing in for the
//! physical bus between the serial bridge and the protocol channel
//! adapter.

use vstd::prelude::*;

verus! {

/// A bounded FIFO queue of bytes. The front of the queue is the oldest
/// byte. `connected` records whether the peer side of the link is still
/// alive; once torn down it never comes back.
pub struct ByteQueue {
    pub buf: Vec<u8>,
    pub cap: usize,
    pub connected: bool,
}

impl View for ByteQueue {
    type V = Seq<u8>;

    open spec fn view(&self) -> Seq<u8> {
        self.buf@
    }
}

impl ByteQueue {
    /// The queue never holds more than its capacity.
    pub open spec fn wf(self) -> bool {
        self@.len() <= self.cap
    }

    /// Builds an empty, connected queue of capacity `cap`.
    pub fn new(cap: usize) -> (q: ByteQueue)
        ensures
            q.wf(),
            q@ =~= Seq::<u8>::empty(),
            q.cap == cap,
            q.connected,
    {
        ByteQueue { buf: Vec::new(), cap, connected: true }
    }

    pub fn len(&self) -> (n: usize)
        ensures
            n == self@.len(),
    {
        self.buf.len()
    }

    pub fn is_empty(&self) -> (b: bool)
        ensures
            b == (self@.len() == 0),
    {
        self.buf.len() == 0
    }

    /// Appends one byte unless the queue is full; a full queue drops the
    /// byte without blocking and without touching the bytes already
    /// queued. Returns whether the byte was stored.
    pub fn push_drop(&mut self, b: u8) -> (accepted: bool)
        requires
            old(self).wf(),
        ensures
            final(self).wf(),
            final(self).cap == old(self).cap,
            final(self).connected == old(self).connected,
            accepted == (old(self)@.len() < old(self).cap),
            accepted ==> final(self)@ == old(self)@.push(b),
            !accepted ==> final(self)@ == old(self)@,
    {
        if self.buf.len() < self.cap {
            self.buf.push(b);
            true
        } else {
            false
        }
    }

    /// Removes and returns the oldest byte, or `None` on an empty queue.
    pub fn pop_front(&mut self) -> (r: Option<u8>)
        requires
            old(self).wf(),
        ensures
            final(self).wf(),
            final(self).cap == old(self).cap,
            final(self).connected == old(self).connected,
            match r {
                Some(b) => old(self)@.len() > 0 && b == old(self)@[0] && final(self)@ == old(
                    self,
                )@.skip(1),
                None => old(self)@.len() == 0 && final(self)@ == old(self)@,
            },
    {
        if self.buf.len() == 0 {
            None
        } else {
            let b = self.buf.remove(0);
            Some(b)
        }
    }

    /// Removes and returns every queued byte, oldest first.
    pub fn drain_all(&mut self) -> (drained: Vec<u8>)
        requires
            old(self).wf(),
        ensures
            final(self).wf(),
            final(self).cap == old(self).cap,
            final(self).connected == old(self).connected,
            drained@ == old(self)@,
            final(self)@ =~= Seq::<u8>::empty(),
    {
        let mut drained: Vec<u8> = Vec::new();
        std::mem::swap(&mut drained, &mut self.buf);
        drained
    }

    /// Marks the peer side of the link as torn down.
    pub fn close(&mut self)
        requires
            old(self).wf(),
        ensures
            final(self).wf(),
            final(self)@ == old(self)@,
            final(self).cap == old(self).cap,
            !final(self).connected,
    {
        self.connected = false;
    }
}

} // verus!
