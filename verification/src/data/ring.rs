//! Trusted interface to the `ringbuffer` crate's `AllocRingBuffer`, holding
//! the entries of the feature history: `(feature id, timestamp)` pairs.
use ringbuffer::AllocRingBuffer;
use ringbuffer::RingBuffer;
use vstd::prelude::*;

verus! {

/// One buffered entry: the id under which a feature record is kept, and the
/// record's timestamp (microseconds since the Unix epoch).
pub type Entry = (u64, i64);

/// Largest capacity accepted for one ring: the allocation of the next power
/// of two (below twice the capacity) of 16-byte entries stays within
/// `isize::MAX` bytes.
pub open spec fn max_ring_capacity() -> int {
    isize::MAX / 32
}

#[verifier::external_type_specification]
#[verifier::external_body]
#[verifier::reject_recursive_types(T)]
pub struct ExAllocRingBuffer<T>(AllocRingBuffer<T>);

/// The entries a ring holds, oldest first.
pub uninterp spec fn ring_items(ring: AllocRingBuffer<Entry>) -> Seq<Entry>;

/// The capacity a ring was created with.
pub uninterp spec fn ring_capacity(ring: AllocRingBuffer<Entry>) -> nat;

/// What a ring of the given capacity holds after one more entry: the entry is
/// appended, and when the ring was full its oldest entry is dropped.
pub open spec fn bounded_push(items: Seq<Entry>, x: Entry, cap: nat) -> Seq<Entry> {
    if items.len() < cap {
        items.push(x)
    } else {
        items.drop_first().push(x)
    }
}

/// `AllocRingBuffer::new`: an empty ring with exactly the requested capacity.
/// The crate panics on capacity zero and when the power-of-two allocation does
/// not fit a `Layout`; both are excluded by `requires`. Allocation failure of
/// the global allocator is not covered by the contract.
#[verifier::external_body]
pub(crate) fn ring_new(capacity: usize) -> (r: AllocRingBuffer<Entry>)
    requires
        0 < capacity <= max_ring_capacity(),
    ensures
        ring_items(r) == Seq::<Entry>::empty(),
        ring_capacity(r) == capacity,
{
    AllocRingBuffer::new(capacity)
}

/// `RingBuffer::push` on an `AllocRingBuffer`: appends the entry and, when the
/// ring already holds `capacity` entries, drops the oldest one first. The
/// contract does not cover a ring that has taken `usize::MAX` pushes, where
/// the crate's internal write counter would overflow.
#[verifier::external_body]
pub(crate) fn ring_push(ring: &mut AllocRingBuffer<Entry>, x: Entry)
    requires
        ring_items(*old(ring)).len() <= ring_capacity(*old(ring)),
        ring_capacity(*old(ring)) > 0,
    ensures
        ring_capacity(*final(ring)) == ring_capacity(*old(ring)),
        ring_items(*final(ring)) == bounded_push(
            ring_items(*old(ring)),
            x,
            ring_capacity(*old(ring)),
        ),
{
    ring.push(x)
}

/// `RingBuffer::len`: the number of entries held.
#[verifier::external_body]
pub(crate) fn ring_len(ring: &AllocRingBuffer<Entry>) -> (n: usize)
    ensures
        n == ring_items(*ring).len(),
{
    ring.len()
}

/// `RingBuffer::clear`: removes every entry and keeps the capacity.
#[verifier::external_body]
pub(crate) fn ring_clear(ring: &mut AllocRingBuffer<Entry>)
    ensures
        ring_items(*final(ring)) == Seq::<Entry>::empty(),
        ring_capacity(*final(ring)) == ring_capacity(*old(ring)),
{
    ring.clear()
}

/// `RingBuffer::front`: the oldest entry, copied out, or `None` when empty.
#[verifier::external_body]
pub(crate) fn ring_front(ring: &AllocRingBuffer<Entry>) -> (r: Option<Entry>)
    ensures
        ring_items(*ring).len() == 0 ==> r is None,
        ring_items(*ring).len() > 0 ==> r == Some(ring_items(*ring)[0]),
{
    ring.front().copied()
}

/// `RingBuffer::back`: the newest entry, copied out, or `None` when empty.
#[verifier::external_body]
pub(crate) fn ring_back(ring: &AllocRingBuffer<Entry>) -> (r: Option<Entry>)
    ensures
        ring_items(*ring).len() == 0 ==> r is None,
        ring_items(*ring).len() > 0 ==> r == Some(ring_items(*ring).last()),
{
    ring.back().copied()
}

/// `RingBuffer::to_vec`: every entry, oldest first.
#[verifier::external_body]
pub(crate) fn ring_to_vec(ring: &AllocRingBuffer<Entry>) -> (v: Vec<Entry>)
    ensures
        v@ == ring_items(*ring),
{
    ring.to_vec()
}

} // verus!
