//! Conversions into and out of the deque: `From` on value/capacity pairs,
//! and owned extraction of the element sequence.
//!
//! The `From` impls are thin sugar over the named constructors, and it is
//! those constructors that carry the exact contracts: a `From` result is a
//! fresh deque value, and two deques with equal contents are not equal
//! values to the verifier, so `from_spec` cannot name the result.

use crate::Deque;
use crate::seq_truncated;
use std::collections::VecDeque;
use vstd::prelude::*;

verus! {

broadcast use vstd::std_specs::vecdeque::group_vec_dequeue_axioms;

/// Relies on `Vec::from` for arrays: the vector holds exactly the array's
/// elements in order.
#[verifier::external_body]
fn array_into_vec<T, const N: usize>(array: [T; N]) -> (v: Vec<T>)
    ensures
        v@ == array@,
{
    Vec::from(array)
}

impl<T> Deque<T> {
    /// Consumes the deque and returns its elements as a vector,
    /// front to back.
    #[must_use]
    pub fn into_vec(self) -> (v: Vec<T>)
        ensures
            v@ == self@,
    {
        crate::vec_deque_into_vec(self.deque)
    }
}

impl<T> From<(T, usize)> for Deque<T> {
    /// Creates a new deque from a single value and a maximum length, as
    /// [`Deque::from`] does.
    fn from(pair: (T, usize)) -> (d: Deque<T>) {
        let (value, maxlen) = pair;
        Deque::from(value, maxlen)
    }
}

impl<T, const N: usize> From<([T; N], usize)> for Deque<T> {
    /// Creates a new deque from an array and a maximum length, keeping
    /// only the first `maxlen` elements if the array is longer.
    fn from(pair: ([T; N], usize)) -> (d: Deque<T>) {
        let (array, maxlen) = pair;
        Deque::from_vec(array_into_vec(array), maxlen)
    }
}

impl<T> From<(Vec<T>, usize)> for Deque<T> {
    /// Creates a new deque from a vector and a maximum length, as
    /// [`Deque::from_vec`] does.
    fn from(pair: (Vec<T>, usize)) -> (d: Deque<T>) {
        let (vec, maxlen) = pair;
        Deque::from_vec(vec, maxlen)
    }
}

impl<T> From<(VecDeque<T>, usize)> for Deque<T> {
    /// Creates a new deque from a `VecDeque` and a maximum length, as
    /// [`Deque::from_vec_deque`] does.
    fn from(pair: (VecDeque<T>, usize)) -> (d: Deque<T>) {
        let (deque, maxlen) = pair;
        Deque::from_vec_deque(deque, maxlen)
    }
}

impl<T> vstd::std_specs::convert::FromSpecImpl<(T, usize)> for Deque<T> {
    open spec fn obeys_from_spec() -> bool {
        false
    }

    open spec fn from_spec(pair: (T, usize)) -> Deque<T> {
        vstd::pervasive::arbitrary()
    }
}

impl<T, const N: usize> vstd::std_specs::convert::FromSpecImpl<([T; N], usize)> for Deque<T> {
    open spec fn obeys_from_spec() -> bool {
        false
    }

    open spec fn from_spec(pair: ([T; N], usize)) -> Deque<T> {
        vstd::pervasive::arbitrary()
    }
}

impl<T> vstd::std_specs::convert::FromSpecImpl<(Vec<T>, usize)> for Deque<T> {
    open spec fn obeys_from_spec() -> bool {
        false
    }

    open spec fn from_spec(pair: (Vec<T>, usize)) -> Deque<T> {
        vstd::pervasive::arbitrary()
    }
}

impl<T> vstd::std_specs::convert::FromSpecImpl<(VecDeque<T>, usize)> for Deque<T> {
    open spec fn obeys_from_spec() -> bool {
        false
    }

    open spec fn from_spec(pair: (VecDeque<T>, usize)) -> Deque<T> {
        vstd::pervasive::arbitrary()
    }
}

} // verus!
