use ringbuf::traits::{Consumer, Observer, Producer, Split};
use ringbuf::{HeapCons, HeapProd, HeapRb};
use vstd::prelude::*;

verus! {

/// Owns a heap-allocated `ringbuf::HeapRb` of sample bit patterns. Its
/// contents are described by `ring_items` and `ring_capacity`.
#[verifier::external_body]
pub struct Ring {
    rb: HeapRb<u32>,
}

/// The unread items of a ring buffer, oldest first.
pub uninterp spec fn ring_items(rb: Ring) -> Seq<u32>;

/// The capacity a ring buffer was made with.
pub uninterp spec fn ring_capacity(rb: Ring) -> nat;

/// Relies on `HeapRb::new`: an empty buffer of the given capacity (it panics
/// on a zero capacity).
#[verifier::external_body]
pub(crate) fn ring_new(capacity: usize) -> (rb: Ring)
    requires
        capacity > 0,
    ensures
        ring_items(rb) == Seq::<u32>::empty(),
        ring_capacity(rb) == capacity as nat,
{
    Ring { rb: HeapRb::<u32>::new(capacity) }
}

/// Relies on `Producer::try_push`: appends the item unless the buffer is full,
/// in which case the buffer is left as it was.
#[verifier::external_body]
pub(crate) fn ring_try_push(rb: &mut Ring, item: u32) -> (accepted: bool)
    ensures
        ring_capacity(*final(rb)) == ring_capacity(*old(rb)),
        accepted == (ring_items(*old(rb)).len() < ring_capacity(*old(rb))),
        accepted ==> ring_items(*final(rb)) == ring_items(*old(rb)).push(item),
        !accepted ==> ring_items(*final(rb)) == ring_items(*old(rb)),
{
    rb.rb.try_push(item).is_ok()
}

/// Relies on `Consumer::try_pop`: removes and returns the oldest item, or
/// `None` when the buffer is empty, leaving it as it was.
#[verifier::external_body]
pub(crate) fn ring_try_pop(rb: &mut Ring) -> (item: Option<u32>)
    ensures
        ring_capacity(*final(rb)) == ring_capacity(*old(rb)),
        ring_items(*old(rb)).len() == 0 ==> item.is_none()
            && ring_items(*final(rb)) == ring_items(*old(rb)),
        ring_items(*old(rb)).len() > 0 ==> item == Some(ring_items(*old(rb))[0])
            && ring_items(*final(rb)) == ring_items(*old(rb)).drop_first(),
{
    rb.rb.try_pop()
}

/// Relies on `Observer::occupied_len`: the number of unread items.
#[verifier::external_body]
pub(crate) fn ring_occupied_len(rb: &Ring) -> (n: usize)
    ensures
        n as nat == ring_items(*rb).len(),
{
    rb.rb.occupied_len()
}

/// Owns the producer end (`ringbuf::HeapProd`) of a split ring buffer.
#[verifier::external_body]
pub struct RingProducer {
    p: HeapProd<u32>,
}

/// Owns the consumer end (`ringbuf::HeapCons`) of a split ring buffer.
#[verifier::external_body]
pub struct RingConsumer {
    c: HeapCons<u32>,
}

/// Relies on `Split::split` for `HeapRb`: the two ends of one buffer, which
/// keeps its unread items. Nothing is stated of them: from then on the
/// other end may run on another thread.
#[verifier::external_body]
pub(crate) fn ring_split(rb: Ring) -> (ends: (RingProducer, RingConsumer)) {
    let (p, c) = rb.rb.split();
    (RingProducer { p }, RingConsumer { c })
}

/// Relies on `Producer::try_push` for `CachingProd`: stores the item when
/// there is room. Whether there is room also depends on the consumer end,
/// which may be running concurrently, so no outcome is promised.
#[verifier::external_body]
pub(crate) fn producer_try_push(p: &mut RingProducer, item: u32) -> (accepted: bool) {
    p.p.try_push(item).is_ok()
}

/// Relies on `Consumer::try_pop` for `CachingCons`: takes the oldest item
/// when there is one. Whether there is one also depends on the producer end,
/// which may be running concurrently, so no outcome is promised.
#[verifier::external_body]
pub(crate) fn consumer_try_pop(c: &mut RingConsumer) -> (item: Option<u32>) {
    c.c.try_pop()
}

} // verus!
