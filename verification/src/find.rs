//! Lookups that compare elements for equality: membership, counting, and
//! position of the first match.
//!
//! What `==` on the element type returns is known to the verifier only for
//! types whose equality obeys its specification (`T::obeys_eq_spec()`), so
//! every contract here is stated under that hypothesis.

use crate::Deque;
use vstd::prelude::*;
use vstd::std_specs::cmp::PartialEqSpec;

verus! {

broadcast use vstd::std_specs::vecdeque::group_vec_dequeue_axioms;

/// Whether some element of `s` is equal to `value`, in the sense of the
/// element type's own equality.
pub open spec fn has_match<T: PartialEq>(s: Seq<T>, value: T) -> bool {
    exists|i: int| 0 <= i < s.len() && s[i].eq_spec(&value)
}

/// How many elements of `s` are equal to `value`, in the sense of the
/// element type's own equality.
pub open spec fn count_matches<T: PartialEq>(s: Seq<T>, value: T) -> nat
    decreases s.len(),
{
    if s.len() == 0 {
        0
    } else {
        count_matches(s.drop_last(), value) + if s.last().eq_spec(&value) {
            1nat
        } else {
            0nat
        }
    }
}

impl<T: PartialEq> Deque<T> {
    /// Returns whether the deque holds an element equal to the given value.
    pub fn contains(&self, value: &T) -> (r: bool)
        ensures
            T::obeys_eq_spec() ==> r == has_match(self@, *value),
    {
        let n = self.deque.len();
        let mut i: usize = 0;
        while i < n
            invariant
                n == self@.len(),
                i <= n,
                T::obeys_eq_spec() ==> forall|j: int| 0 <= j < i ==> !self@[j].eq_spec(value),
            decreases n - i,
        {
            let e = &self.deque[i];
            if e.eq(value) {
                return true;
            }
            i += 1;
        }
        false
    }

    /// Returns how many elements of the deque are equal to the given value.
    pub fn count(&self, value: &T) -> (r: usize)
        ensures
            T::obeys_eq_spec() ==> r == count_matches(self@, *value),
    {
        let n = self.deque.len();
        let mut i: usize = 0;
        let mut c: usize = 0;
        while i < n
            invariant
                n == self@.len(),
                i <= n,
                c <= i,
                T::obeys_eq_spec() ==> c == count_matches(self@.take(i as int), *value),
            decreases n - i,
        {
            let ghost prefix = self@.take(i as int);
            let e = &self.deque[i];
            if e.eq(value) {
                c += 1;
            }
            i += 1;
            proof {
                assert(self@.take(i as int).drop_last() =~= prefix);
                assert(self@.take(i as int).last() == self@[i - 1]);
            }
        }
        proof {
            assert(self@.take(n as int) =~= self@);
        }
        c
    }

    /// Returns the index of the first element equal to the given value, or
    /// `None` if there is none.
    pub fn index_of(&self, value: &T) -> (r: Option<usize>)
        ensures
            T::obeys_eq_spec() ==> match r {
                Some(i) => i < self@.len() && self@[i as int].eq_spec(value) && forall|j: int|
                    0 <= j < i ==> !self@[j].eq_spec(value),
                None => !has_match(self@, *value),
            },
    {
        let n = self.deque.len();
        let mut i: usize = 0;
        while i < n
            invariant
                n == self@.len(),
                i <= n,
                T::obeys_eq_spec() ==> forall|j: int| 0 <= j < i ==> !self@[j].eq_spec(value),
            decreases n - i,
        {
            let e = &self.deque[i];
            if e.eq(value) {
                return Some(i);
            }
            i += 1;
        }
        None
    }

    /// Returns the index of the first element equal to the given value
    /// among positions `start` up to (but not including) `end`, with `end`
    /// clamped to the length.  An empty range, including `start >= end`,
    /// simply finds nothing.
    pub fn index_of_in_range(&self, value: &T, start: usize, end: usize) -> (r: Option<usize>)
        ensures
            T::obeys_eq_spec() ==> match r {
                Some(i) => start <= i < self@.len() && i < end && self@[i as int].eq_spec(value)
                    && forall|j: int| start <= j < i ==> !self@[j].eq_spec(value),
                None => forall|j: int|
                    start <= j < self@.len() && j < end ==> !self@[j].eq_spec(value),
            },
    {
        let n = self.deque.len();
        let hi = if end < n {
            end
        } else {
            n
        };
        if start >= hi {
            return None;
        }
        let mut i: usize = start;
        while i < hi
            invariant
                n == self@.len(),
                hi <= n,
                hi <= end,
                (end < n ==> hi == end) && (end >= n ==> hi == n),
                start <= i <= hi,
                T::obeys_eq_spec() ==> forall|j: int| start <= j < i ==> !self@[j].eq_spec(value),
            decreases hi - i,
        {
            let e = &self.deque[i];
            if e.eq(value) {
                return Some(i);
            }
            i += 1;
        }
        None
    }

    /// Removes the first element equal to the given value and returns it,
    /// or returns `None`, leaving the deque unchanged, if there is none.
    pub fn remove_first_matching(&mut self, value: &T) -> (r: Option<T>)
        ensures
            final(self).spec_maxlen() == old(self).spec_maxlen(),
            old(self).wf() ==> final(self).wf(),
            T::obeys_eq_spec() ==> match r {
                Some(x) => exists|i: int|
                    {
                        &&& 0 <= i < old(self)@.len()
                        &&& old(self)@[i].eq_spec(value)
                        &&& (forall|j: int| 0 <= j < i ==> !old(self)@[j].eq_spec(value))
                        &&& x == old(self)@[i]
                        &&& final(self)@ == old(self)@.remove(i)
                    },
                None => !has_match(old(self)@, *value) && final(self)@ == old(self)@,
            },
    {
        let found = self.index_of(value);
        match found {
            Some(i) => self.remove(i),
            None => None,
        }
    }
}

} // verus!
