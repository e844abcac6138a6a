//! Bounded FIFO of received bytes.
//!
//! The receive side of the USB serial bridge queues incoming bytes in a
//! fixed-capacity deque from the heapless crate.  The deque's own type
//! cannot be named by the verifier (its storage parameter is a private
//! type), so it lives in a private field of an opaque struct; `ring_bytes`
//! names its contents, and a small set of trusted methods relates every
//! operation to that name.

use vstd::prelude::*;

verus! {

/// Capacity of the receive ring, in bytes: exactly one transport packet,
/// so that backpressure (wait until drained) bounds memory at one chunk.
pub const RING_CAPACITY: usize = 64;

/// Fixed-capacity FIFO of bytes, front = oldest.
///
/// Opaque to the verifier; `ring_bytes` gives the queued bytes in order.
#[verifier::external_body]
pub struct ByteRing {
    queue: heapless::Deque<u8, 64>,
}

/// The bytes held by the ring, oldest first.
pub uninterp spec fn ring_bytes(r: ByteRing) -> Seq<u8>;

impl ByteRing {
    /// Relies on heapless's `Deque::new`: an empty deque.
    #[verifier::external_body]
    pub fn new() -> (r: ByteRing)
        ensures
            ring_bytes(r) == Seq::<u8>::empty(),
    {
        ByteRing { queue: heapless::Deque::new() }
    }

    /// Relies on heapless's `Deque::len`: the number of queued elements.
    #[verifier::external_body]
    pub fn len(&self) -> (n: usize)
        ensures
            n == ring_bytes(*self).len(),
    {
        self.queue.len()
    }

    /// Relies on heapless's `Deque::push_back`: appends at the back, or
    /// returns the item when the deque already holds its capacity.
    #[verifier::external_body]
    pub fn push_back(&mut self, b: u8) -> (r: Result<(), u8>)
        ensures
            r == (if ring_bytes(*old(self)).len() < RING_CAPACITY {
                Ok::<(), u8>(())
            } else {
                Err::<(), u8>(b)
            }),
            ring_bytes(*final(self)) == (if ring_bytes(*old(self)).len() < RING_CAPACITY {
                ring_bytes(*old(self)).push(b)
            } else {
                ring_bytes(*old(self))
            }),
    {
        self.queue.push_back(b)
    }

    /// Relies on heapless's `Deque::pop_front`: removes and returns the
    /// front element, or `None` when the deque is empty.
    #[verifier::external_body]
    pub fn pop_front(&mut self) -> (r: Option<u8>)
        ensures
            ring_bytes(*old(self)).len() > 0 ==> r == Some(ring_bytes(*old(self))[0])
                && ring_bytes(*final(self)) == ring_bytes(*old(self)).drop_first(),
            ring_bytes(*old(self)).len() == 0 ==> r == None::<u8>
                && ring_bytes(*final(self)) == ring_bytes(*old(self)),
    {
        self.queue.pop_front()
    }

    /// True when no byte is queued.
    pub fn is_empty(&self) -> (r: bool)
        ensures
            r == (ring_bytes(*self).len() == 0),
    {
        self.len() == 0
    }
}

} // verus!
