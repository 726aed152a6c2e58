//! Equality between deques, and between a deque and a plain `VecDeque`.
//!
//! Two deques are equal exactly when their element sequences are equal in
//! order and length; the maximum length takes no part in the comparison.

use crate::Deque;
use std::collections::VecDeque;
use vstd::prelude::*;
use vstd::std_specs::cmp::PartialEqSpec;

verus! {

broadcast use vstd::std_specs::vecdeque::group_vec_dequeue_axioms;

/// Element-wise equality of two sequences, in the sense of the element
/// type's own equality.
pub open spec fn seqs_match<T: PartialEq>(a: Seq<T>, b: Seq<T>) -> bool {
    a.len() == b.len() && forall|i: int| 0 <= i < a.len() ==> a[i].eq_spec(&b[i])
}

/// Compares the contents of two `VecDeque`s element by element.
fn vec_deque_elems_eq<T: PartialEq>(a: &VecDeque<T>, b: &VecDeque<T>) -> (r: bool)
    ensures
        T::obeys_eq_spec() ==> r == seqs_match(a@, b@),
{
    let n = a.len();
    if n != b.len() {
        return false;
    }
    let mut i: usize = 0;
    while i < n
        invariant
            n == a@.len(),
            n == b@.len(),
            i <= n,
            T::obeys_eq_spec() ==> forall|j: int| 0 <= j < i ==> a@[j].eq_spec(&b@[j]),
        decreases n - i,
    {
        let x = &a[i];
        let y = &b[i];
        if !x.eq(y) {
            return false;
        }
        i += 1;
    }
    true
}

impl<T: PartialEq> PartialEq for Deque<T> {
    fn eq(&self, other: &Self) -> (r: bool) {
        vec_deque_elems_eq(&self.deque, &other.deque)
    }
}

impl<T: PartialEq> vstd::std_specs::cmp::PartialEqSpecImpl for Deque<T> {
    open spec fn obeys_eq_spec() -> bool {
        T::obeys_eq_spec()
    }

    open spec fn eq_spec(&self, other: &Deque<T>) -> bool {
        seqs_match(self@, other@)
    }
}

impl<T: Eq> Eq for Deque<T> {
}

impl<T: PartialEq> PartialEq<VecDeque<T>> for Deque<T> {
    fn eq(&self, other: &VecDeque<T>) -> (r: bool) {
        vec_deque_elems_eq(&self.deque, other)
    }
}

impl<T: PartialEq> vstd::std_specs::cmp::PartialEqSpecImpl<VecDeque<T>> for Deque<T> {
    open spec fn obeys_eq_spec() -> bool {
        T::obeys_eq_spec()
    }

    open spec fn eq_spec(&self, other: &VecDeque<T>) -> bool {
        seqs_match(self@, other@)
    }
}

impl<T: PartialEq> PartialEq<Deque<T>> for VecDeque<T> {
    fn eq(&self, other: &Deque<T>) -> (r: bool) {
        vec_deque_elems_eq(self, &other.deque)
    }
}

impl<T: PartialEq> vstd::std_specs::cmp::PartialEqSpecImpl<Deque<T>> for VecDeque<T> {
    open spec fn obeys_eq_spec() -> bool {
        T::obeys_eq_spec()
    }

    open spec fn eq_spec(&self, other: &Deque<T>) -> bool {
        seqs_match(self@, other@)
    }
}

} // verus!
