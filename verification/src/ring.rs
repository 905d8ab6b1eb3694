//! Storage for the peak-detection window: a fixed-capacity ring that
//! overwrites its oldest entry once full, so it always holds the most
//! recent values.
//!
//! The buffer comes from the `ringbuffer` crate. The few operations the
//! engine needs are wrapped here with trusted contracts stated over an
//! abstract view of the contents (oldest first) and of the internal
//! write counter.

use vstd::prelude::*;

verus! {

use ringbuffer::ConstGenericRingBuffer;
use ringbuffer::RingBuffer;

/// Capacity of the deviation window.
pub const RING_CAPACITY: usize = 200;

#[verifier::external_type_specification]
#[verifier::external_body]
#[verifier::reject_recursive_types(T)]
pub struct ExConstGenericRingBuffer<T, const CAP: usize>(ConstGenericRingBuffer<T, CAP>);

/// The values held by the ring, oldest first.
pub uninterp spec fn ring_contents(r: &ConstGenericRingBuffer<i64, RING_CAPACITY>) -> Seq<i64>;

/// Number of values enqueued since the ring was created or last cleared.
/// The crate tracks positions in plain machine words that only grow, so
/// the contracts below keep this count in view to rule out overflow.
pub uninterp spec fn ring_age(r: &ConstGenericRingBuffer<i64, RING_CAPACITY>) -> nat;

/// Relies on ConstGenericRingBuffer::new: creates an empty ring.
#[verifier::external_body]
pub(crate) fn ring_new() -> (r: ConstGenericRingBuffer<i64, RING_CAPACITY>)
    ensures
        ring_contents(&r) == Seq::<i64>::empty(),
        ring_age(&r) == 0,
{
    ConstGenericRingBuffer::new()
}

/// Relies on RingBuffer::clear: empties the buffer and resets its
/// read and write positions.
#[verifier::external_body]
pub(crate) fn ring_clear(r: &mut ConstGenericRingBuffer<i64, RING_CAPACITY>)
    ensures
        ring_contents(final(r)) == Seq::<i64>::empty(),
        ring_age(final(r)) == 0,
{
    r.clear()
}

/// Relies on RingBuffer::enqueue: appends a value at the back and, once
/// the capacity is reached, drops the oldest entry to make room.
#[verifier::external_body]
pub(crate) fn ring_push(r: &mut ConstGenericRingBuffer<i64, RING_CAPACITY>, v: i64)
    requires
        ring_contents(old(r)).len() <= RING_CAPACITY,
        ring_age(old(r)) < usize::MAX,
    ensures
        ring_contents(final(r)) == (if ring_contents(old(r)).len() < RING_CAPACITY {
            ring_contents(old(r)).push(v)
        } else {
            ring_contents(old(r)).drop_first().push(v)
        }),
        ring_age(final(r)) == ring_age(old(r)) + 1,
{
    let _ = r.enqueue(v);
}

/// Relies on RingBuffer::iter: visits the values oldest first.
#[verifier::external_body]
pub(crate) fn ring_items(r: &ConstGenericRingBuffer<i64, RING_CAPACITY>) -> (v: Vec<i64>)
    ensures
        v@ == ring_contents(r),
{
    r.iter().copied().collect()
}

} // verus!
