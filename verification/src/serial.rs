//! USB serial bridge: mailbox transmit, ring-buffer receive.
//!
//! The VM side runs synchronously: `printflush` overwrites the single-slot
//! transmit mailbox (last write wins) and yields; `read` consumes from the
//! receive ring.  The transport side runs out of band: a flush routine
//! takes the mailbox and writes the message as packets, and a receiver
//! routine offers incoming chunks, which the bridge refuses until the ring
//! has been fully drained (backpressure).

use vstd::prelude::*;

use crate::ring::{ring_bytes, ByteRing, RING_CAPACITY};
use crate::text::{decode_lossy, lossy_of, u16_units};
use crate::value::{spec_index_of, SensorTag, Value};
use crate::Outcome;

verus! {

/// Largest packet the USB transport sends in one transfer.  The receive
/// ring holds exactly one such packet.
pub const MAX_USB_PACKET_SIZE: usize = RING_CAPACITY;

/// The bridge's state: transmit mailbox, receive ring, and whether the
/// transport has been seen connected (set once, never cleared).
pub struct SerialData {
    tx: Option<String>,
    rx: ByteRing,
    connected: bool,
}

/// The characters of an optional message.
pub open spec fn spec_opt_text(o: Option<String>) -> Option<Seq<char>> {
    match o {
        Some(s) => Some(s@),
        None => None,
    }
}

/// Whether an address hits the queue: it denotes an index below the
/// current queue length.
pub open spec fn spec_skip_hit(queue: Seq<u8>, addr: Value) -> bool {
    match spec_index_of(addr) {
        Some(i) => i < queue.len(),
        None => false,
    }
}

/// What a receive read returns: the byte at the addressed position, or
/// the null sentinel on a miss.
pub open spec fn spec_skip_read_result(queue: Seq<u8>, addr: Value) -> Value {
    if spec_skip_hit(queue, addr) {
        Value::Num(queue[spec_index_of(addr)->Some_0 as int] as i64)
    } else {
        Value::Null
    }
}

/// The queue after a receive read: a hit discards everything up to and
/// including the addressed byte; a miss leaves the queue untouched.
pub open spec fn spec_queue_after_read(queue: Seq<u8>, addr: Value) -> Seq<u8> {
    if spec_skip_hit(queue, addr) {
        queue.skip(spec_index_of(addr)->Some_0 + 1)
    } else {
        queue
    }
}

impl SerialData {
    /// The pending outbound message, if any.
    pub closed spec fn tx_message(&self) -> Option<Seq<char>> {
        spec_opt_text(self.tx)
    }

    /// The queued inbound bytes, oldest first.
    pub closed spec fn rx_queue(&self) -> Seq<u8> {
        ring_bytes(self.rx)
    }

    /// Whether the transport has been seen connected.
    pub closed spec fn spec_connected(&self) -> bool {
        self.connected
    }

    /// A fresh bridge: empty mailbox, empty ring, not yet connected.
    pub fn new() -> (r: SerialData)
        ensures
            r.tx_message() is None,
            r.rx_queue() == Seq::<u8>::empty(),
            !r.spec_connected(),
    {
        SerialData { tx: None, rx: ByteRing::new(), connected: false }
    }

    /// Reads from the receive queue with skip semantics: an address `i`
    /// below the queue length discards the `i` bytes in front of the
    /// addressed one, dequeues it, and returns it as a number; any other
    /// address returns the null sentinel and leaves the queue untouched.
    pub fn read(&mut self, addr: Value) -> (r: Value)
        ensures
            r == spec_skip_read_result(old(self).rx_queue(), addr),
            final(self).rx_queue() == spec_queue_after_read(old(self).rx_queue(), addr),
            final(self).tx_message() == old(self).tx_message(),
            final(self).spec_connected() == old(self).spec_connected(),
    {
        let hit = match addr.index() {
            Some(i) => i < self.rx.len(),
            None => false,
        };
        if hit {
            let i = addr.index().unwrap();
            let ghost q0 = ring_bytes(self.rx);
            let mut dropped: usize = 0;
            while dropped < i
                invariant
                    dropped <= i,
                    i < q0.len(),
                    ring_bytes(self.rx) == q0.skip(dropped as int),
                    self.tx == old(self).tx,
                    self.connected == old(self).connected,
                decreases i - dropped,
            {
                let _ = self.rx.pop_front();
                proof {
                    assert(q0.skip(dropped as int).drop_first() =~= q0.skip(dropped + 1));
                }
                dropped += 1;
            }
            let front = self.rx.pop_front();
            proof {
                assert(q0.skip(i as int)[0] == q0[i as int]);
                assert(q0.skip(i as int).drop_first() =~= q0.skip(i + 1));
            }
            Value::Num(front.unwrap() as i64)
        } else {
            Value::Null
        }
    }

    /// Stores the text to transmit into the mailbox, overwriting any prior
    /// unflushed message (a stalled consumer silently drops intermediate
    /// messages), and suspends the instruction stream: the transfer itself
    /// happens in the out-of-band flush routine.
    pub fn printflush(&mut self, text: &widestring::U16String) -> (r: Outcome)
        ensures
            r == Outcome::Yield,
            final(self).tx_message() == Some(lossy_of(u16_units(*text))),
            final(self).rx_queue() == old(self).rx_queue(),
            final(self).spec_connected() == old(self).spec_connected(),
    {
        self.tx = Some(decode_lossy(text));
        Outcome::Yield
    }

    /// Takes the pending message out of the mailbox, leaving it empty.
    /// The flush routine sends what it gets as packets (`packetize`).
    pub fn take_message(&mut self) -> (r: Option<String>)
        ensures
            final(self).tx_message() is None,
            (r is Some) == (old(self).tx_message() is Some),
            r matches Some(m) ==> old(self).tx_message() == Some(m@),
            final(self).rx_queue() == old(self).rx_queue(),
            final(self).spec_connected() == old(self).spec_connected(),
    {
        let mut taken: Option<String> = None;
        core::mem::swap(&mut self.tx, &mut taken);
        taken
    }

    /// Records that the transport has been seen connected.  The flag is
    /// set at most once and never cleared: the flush routine waits for the
    /// connection only the first time.
    pub fn note_connected(&mut self)
        ensures
            final(self).spec_connected(),
            final(self).tx_message() == old(self).tx_message(),
            final(self).rx_queue() == old(self).rx_queue(),
    {
        self.connected = true;
    }

    /// Whether the transport has been seen connected.
    pub fn is_connected(&self) -> (r: bool)
        ensures
            r == self.spec_connected(),
    {
        self.connected
    }

    /// True while the ring still holds undrained bytes: the receiver must
    /// not accept a new inbound chunk yet.
    pub fn rx_has_backlog(&self) -> (r: bool)
        ensures
            r == (self.rx_queue().len() > 0),
    {
        !self.rx.is_empty()
    }

    /// Offers an inbound chunk to the ring.  While the ring still holds
    /// undrained data the chunk is refused and nothing changes; once the
    /// consumer has fully drained the ring, the chunk is accepted whole,
    /// in order.
    pub fn accept_chunk(&mut self, data: &Vec<u8>) -> (accepted: bool)
        requires
            data@.len() <= RING_CAPACITY,
        ensures
            accepted == (old(self).rx_queue().len() == 0),
            accepted ==> final(self).rx_queue() == data@,
            !accepted ==> final(self).rx_queue() == old(self).rx_queue(),
            final(self).tx_message() == old(self).tx_message(),
            final(self).spec_connected() == old(self).spec_connected(),
    {
        if self.rx_has_backlog() {
            return false;
        }
        let mut j: usize = 0;
        while j < data.len()
            invariant
                j <= data@.len(),
                data@.len() <= RING_CAPACITY,
                ring_bytes(self.rx) == data@.take(j as int),
                self.tx == old(self).tx,
                self.connected == old(self).connected,
            decreases data@.len() - j,
        {
            let _ = self.rx.push_back(data[j]);
            proof {
                assert(data@.take(j as int).push(data@[j as int]) =~= data@.take(j + 1));
            }
            j += 1;
        }
        proof {
            assert(data@.take(data@.len() as int) =~= data@);
        }
        true
    }

    /// Answers a sensor query: the bridge reports its packet capacity and
    /// the number of queued inbound bytes.
    pub fn sensor(&self, tag: SensorTag) -> (r: Option<Value>)
        ensures
            r == (match tag {
                SensorTag::MemoryCapacity => Some(Value::Num(MAX_USB_PACKET_SIZE as i64)),
                SensorTag::BufferSize => Some(Value::Num(self.rx_queue().len() as i64)),
                _ => None::<Value>,
            }),
    {
        match tag {
            SensorTag::MemoryCapacity => Some(Value::Num(MAX_USB_PACKET_SIZE as i64)),
            SensorTag::BufferSize => Some(Value::Num(self.rx.len() as i64)),
            _ => None,
        }
    }
}

/// The packets a message is framed into: chunks no larger than the packet
/// size, in order; a message whose length is an exact multiple of the
/// packet size (the empty message included) ends with one empty packet,
/// so the transport can tell that the transfer is complete.
pub open spec fn spec_packets(data: Seq<u8>, p: int) -> Seq<Seq<u8>>
    decreases data.len(),
{
    if p <= 0 {
        seq![]
    } else if data.len() == 0 {
        seq![Seq::<u8>::empty()]
    } else if data.len() < p {
        seq![data]
    } else {
        seq![data.take(p)] + spec_packets(data.skip(p), p)
    }
}

/// Splits a message into the packets the transport must send, exactly as
/// `spec_packets` describes.
pub fn packetize(data: &Vec<u8>, packet_size: usize) -> (r: Vec<Vec<u8>>)
    requires
        packet_size >= 1,
    ensures
        r.deep_view() == spec_packets(data@, packet_size as int),
{
    let ghost p = packet_size as int;
    let mut out: Vec<Vec<u8>> = Vec::new();
    let mut start: usize = 0;
    proof {
        assert(data@.skip(0) =~= data@);
        assert(out.deep_view() =~~= Seq::<Seq<u8>>::empty());
        assert(Seq::<Seq<u8>>::empty() + spec_packets(data@, p) =~~= spec_packets(data@, p));
    }
    while data.len() - start >= packet_size
        invariant
            packet_size >= 1,
            p == packet_size,
            start <= data@.len(),
            spec_packets(data@, p) == out.deep_view() + spec_packets(data@.skip(start as int), p),
        decreases data@.len() - start,
    {
        let mut chunk: Vec<u8> = Vec::new();
        let mut j: usize = start;
        while j < start + packet_size
            invariant
                start <= j <= start + packet_size,
                start + packet_size <= data@.len(),
                data@.len() <= usize::MAX,
                chunk@ == data@.subrange(start as int, j as int),
            decreases start + packet_size - j,
        {
            chunk.push(data[j]);
            proof {
                assert(data@.subrange(start as int, j as int).push(data@[j as int])
                    =~= data@.subrange(start as int, j + 1));
            }
            j += 1;
        }
        proof {
            let rest = data@.skip(start as int);
            assert(start + p <= data@.len());
            assert(rest.len() == data@.len() - start);
            assert forall|k: int| 0 <= k < p implies rest.take(p)[k] == data@.subrange(
                start as int,
                start + p,
            )[k] by {
                assert(rest[k] == data@[start + k]);
            }
            assert(rest.take(p) =~= data@.subrange(start as int, start + p));
            assert forall|k: int| 0 <= k < rest.len() - p implies rest.skip(p)[k] == data@.skip(
                start + p,
            )[k] by {
                assert(rest[k + p] == data@[start + p + k]);
            }
            assert(rest.skip(p) =~= data@.skip(start + p));
            assert((out.deep_view() + seq![chunk@]) + spec_packets(data@.skip(start + p), p)
                =~~= out.deep_view() + spec_packets(data@.skip(start as int), p));
        }
        let ghost out0 = out.deep_view();
        out.push(chunk);
        proof {
            assert(out.deep_view() =~~= out0 + seq![chunk@]);
        }
        start += packet_size;
    }
    let mut tail: Vec<u8> = Vec::new();
    let mut j: usize = start;
    while j < data.len()
        invariant
            start <= j <= data@.len(),
            tail@ == data@.subrange(start as int, j as int),
        decreases data@.len() - j,
    {
        tail.push(data[j]);
        proof {
            assert(data@.subrange(start as int, j as int).push(data@[j as int])
                =~= data@.subrange(start as int, j + 1));
        }
        j += 1;
    }
    proof {
        let rest = data@.skip(start as int);
        if data@.len() - start > 0 {
            assert(tail@ =~= rest);
        } else {
            assert(rest =~= Seq::<u8>::empty());
            assert(tail@ =~= Seq::<u8>::empty());
        }
    }
    let ghost out0 = out.deep_view();
    out.push(tail);
    proof {
        assert(out.deep_view() =~~= out0 + seq![tail@]);
        assert(out.deep_view() =~~= spec_packets(data@, p));
    }
    out
}

/// Transmit framing law: a message exactly one packet long is framed as
/// that packet followed by one empty packet; a message one byte shorter
/// is framed as a single packet.
pub proof fn lemma_packet_framing(data: Seq<u8>, p: int)
    requires
        p >= 1,
    ensures
        data.len() == p ==> spec_packets(data, p) =~~= seq![data, Seq::<u8>::empty()],
        data.len() == p - 1 ==> spec_packets(data, p) =~~= seq![data],
{
    if data.len() == p {
        assert(data.take(p) =~= data);
        assert(data.skip(p) =~= Seq::<u8>::empty());
        assert(spec_packets(data.skip(p), p) =~~= seq![Seq::<u8>::empty()]);
        assert(spec_packets(data, p) =~~= seq![data.take(p)] + spec_packets(data.skip(p), p));
    }
}

} // verus!
