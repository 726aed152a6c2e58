//! Thin wrappers around the few `std::collections::VecDeque` methods that
//! vstd leaves without a specification.

use std::collections::VecDeque;
use vstd::prelude::*;

verus! {

broadcast use vstd::std_specs::vecdeque::group_vec_dequeue_axioms;

/// Relies on `VecDeque::get_mut`: a mutable reference to the element at
/// `index`, or `None` when `index` is out of bounds.  The rest of the
/// deque is untouched.
#[verifier::external_body]
pub(crate) fn deque_get_mut<T>(v: &mut VecDeque<T>, index: usize) -> (r: Option<&mut T>)
    ensures
        match r {
            Some(m) => index < old(v)@.len() && *m == old(v)@[index as int] && final(v)@ == old(v)@.update(index as int, *final(m)),
            None => index >= old(v)@.len() && final(v)@ == old(v)@,
        },
{
    v.get_mut(index)
}

/// Relies on `VecDeque::capacity`: how many elements fit without a fresh
/// allocation, which is never fewer than the deque already holds.  The
/// exact figure is the allocator's business, so nothing more is promised.
#[verifier::external_body]
pub(crate) fn deque_capacity<T>(v: &VecDeque<T>) -> (c: usize)
    ensures
        c >= v@.len(),
{
    v.capacity()
}

/// Relies on `VecDeque::as_slices`: the front and back runs of the ring
/// buffer, which concatenate to the whole contents in order.
#[verifier::external_body]
pub(crate) fn deque_as_slices<'a, T>(v: &'a VecDeque<T>) -> (r: (&'a [T], &'a [T]))
    ensures
        r.0@ + r.1@ == v@,
{
    v.as_slices()
}

/// Relies on `VecDeque::make_contiguous`: the storage is rearranged into a
/// single run without changing the contents or their order, and that run,
/// holding the whole contents, is returned.
#[verifier::external_body]
pub(crate) fn deque_make_contiguous<'a, T>(v: &'a mut VecDeque<T>) -> (r: &'a [T])
    ensures
        final(v)@ == old(v)@,
        r@ == old(v)@,
{
    v.make_contiguous()
}

} // verus!
