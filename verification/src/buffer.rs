//! The bounded signal buffer: a fixed-capacity, inline vector of symbols.
//!
//! The game keeps its sequence and the player's attempt in `heapless::Vec`,
//! which stores its elements inline and never allocates.  The vector itself
//! is outside code; each operation the game needs stands here behind a
//! trusted contract over `stored`, the abstract sequence of its elements.

use vstd::prelude::*;

use crate::signal::Signal;

verus! {

/// Fixed capacity of every signal buffer; growing a sequence past it is a
/// precondition violation, never a silent truncation.
pub const CAPACITY: usize = 64;

/// A bounded, inline buffer of signal symbols.
pub type SignalVec = heapless::Vec<Signal, CAPACITY>;

#[verifier::external_type_specification]
#[verifier::external_body]
#[verifier::reject_recursive_types(T)]
pub struct ExHeaplessVec<T, const N: usize>(heapless::Vec<T, N>);

/// The symbols a buffer holds, oldest first.
pub uninterp spec fn stored(v: SignalVec) -> Seq<Signal>;

/// Relies on `heapless::Vec::new`: it constructs a vector with no elements.
#[verifier::external_body]
pub(crate) fn sigvec_new() -> (v: SignalVec)
    ensures
        stored(v) == Seq::<Signal>::empty(),
{
    heapless::Vec::new()
}

/// Relies on `heapless::Vec::as_slice`: it returns the slice of the elements
/// in order, whose length is the number of elements held.
#[verifier::external_body]
pub(crate) fn sigvec_len(v: &SignalVec) -> (n: usize)
    ensures
        n == stored(*v).len(),
{
    v.as_slice().len()
}

/// Relies on `heapless::Vec::as_slice` and slice indexing: the element at
/// position `i` of the slice is the `i`-th element held, oldest first.
#[verifier::external_body]
pub(crate) fn sigvec_get(v: &SignalVec, i: usize) -> (s: Signal)
    requires
        i < stored(*v).len(),
    ensures
        s == stored(*v)[i as int],
{
    v.as_slice()[i]
}

/// Relies on `heapless::Vec::push`: below capacity it appends the item at
/// the tail and leaves the rest untouched.
#[verifier::external_body]
pub(crate) fn sigvec_push(v: &mut SignalVec, s: Signal)
    requires
        stored(*old(v)).len() < CAPACITY,
    ensures
        stored(*final(v)) == stored(*old(v)).push(s),
{
    let _ = v.push(s);
}

/// Relies on `heapless::Vec::clear`: it removes every element.
#[verifier::external_body]
pub(crate) fn sigvec_clear(v: &mut SignalVec)
    ensures
        stored(*final(v)) == Seq::<Signal>::empty(),
{
    v.clear();
}

} // verus!
