//! A double-ended queue with a fixed maximum length.
//!
//! Once the deque holds as many elements as its maximum length allows,
//! pushing a new element at one end evicts and returns the element at the
//! opposite end, so the length never exceeds the maximum.

use std::collections::VecDeque;
use vstd::prelude::*;

mod access;
mod convert;
mod eq;
mod find;
mod laws;
mod ops;
mod retain;
mod search;
mod vecdeque_extra;

pub use eq::seqs_match;
pub use find::count_matches;
pub use find::has_match;
pub use laws::lemma_construction_round_trip;
pub use laws::lemma_eq_ignores_maxlen;
pub use laws::lemma_reverse_reverse;

pub use ops::extended_back;
pub use ops::extended_front;
pub use ops::first_up_to;
pub use ops::last_up_to;
pub use ops::lemma_extended_back_is_suffix;
pub use ops::lemma_extended_front_is_prefix;
pub use ops::pushed_back;
pub use ops::pushed_front;
pub use retain::firsts;
pub use retain::lemma_mask_filter_all_false;
pub use retain::lemma_mask_filter_all_true;
pub use retain::lemma_mask_filter_len;
pub use retain::mask_filter;
pub use retain::seconds;
pub use search::sorted_by_cmp;

verus! {

broadcast use vstd::std_specs::vecdeque::group_vec_dequeue_axioms;

/// What construction from a sequence keeps: the whole sequence if it fits
/// within `maxlen`, and otherwise exactly the first `maxlen` elements.
pub open spec fn seq_truncated<T>(s: Seq<T>, maxlen: usize) -> Seq<T> {
    if s.len() <= maxlen {
        s
    } else {
        s.take(maxlen as int)
    }
}

/// Moves the elements of a vector into a `VecDeque`, preserving order.
pub(crate) fn vec_into_vec_deque<T>(v: Vec<T>) -> (d: VecDeque<T>)
    ensures
        d@ == v@,
{
    let mut v = v;
    let ghost orig = v@;
    let mut d: VecDeque<T> = VecDeque::new();
    while v.len() > 0
        invariant
            v@ + d@ == orig,
        decreases v.len(),
    {
        let x = v.pop().unwrap();
        d.push_front(x);
        proof {
            assert(v@ + d@ =~= orig);
        }
    }
    proof {
        assert(d@ =~= orig);
    }
    d
}

/// Moves the elements of a `VecDeque` into a vector, preserving order.
pub(crate) fn vec_deque_into_vec<T>(d: VecDeque<T>) -> (v: Vec<T>)
    ensures
        v@ == d@,
{
    let ghost orig = d@;
    let mut d = d;
    let mut v: Vec<T> = Vec::new();
    while d.len() > 0
        invariant
            v@ + d@ == orig,
        decreases d.len(),
    {
        let x = d.pop_front().unwrap();
        v.push(x);
        proof {
            assert(v@ + d@ =~= orig);
        }
    }
    proof {
        assert(v@ =~= orig);
    }
    v
}

/// A `VecDeque` bounded by a fixed maximum length.
///
/// When the deque is full, adding an element at one end removes and
/// returns the element at the opposite end.
#[derive(Debug)]
pub struct Deque<T> {
    deque: VecDeque<T>,
    maxlen: usize,
}

impl<T> View for Deque<T> {
    type V = Seq<T>;

    closed spec fn view(&self) -> Seq<T> {
        self.deque@
    }
}

impl<T> Deque<T> {
    /// The configured maximum length, as a specification value.
    pub closed spec fn spec_maxlen(&self) -> usize {
        self.maxlen
    }

    /// The deque never holds more elements than its maximum length.
    pub open spec fn wf(&self) -> bool {
        self@.len() <= self.spec_maxlen()
    }

    /// Creates a new empty deque with a given maximum length.
    #[must_use]
    pub fn new(maxlen: usize) -> (d: Self)
        ensures
            d@ == Seq::<T>::empty(),
            d.spec_maxlen() == maxlen,
            d.wf(),
    {
        Deque { deque: VecDeque::with_capacity(maxlen), maxlen }
    }

    /// Creates a new deque holding a given single value, with a given
    /// maximum length.  A maximum length of zero leaves no room even for
    /// that one value, so the resulting deque is then empty.
    pub fn from(value: T, maxlen: usize) -> (d: Self)
        ensures
            d@ == seq_truncated(seq![value], maxlen),
            d.spec_maxlen() == maxlen,
            d.wf(),
    {
        let mut deque: VecDeque<T> = VecDeque::with_capacity(maxlen);
        if maxlen > 0 {
            deque.push_back(value);
        }
        proof {
            if maxlen > 0 {
                assert(deque@ =~= seq_truncated(seq![value], maxlen));
            }
        }
        Deque { deque, maxlen }
    }

    /// Creates a new deque from an existing `Vec` with a given maximum
    /// length.  If the vector is longer than the maximum length, only its
    /// first `maxlen` elements are kept.
    #[must_use]
    pub fn from_vec(vec: Vec<T>, maxlen: usize) -> (d: Self)
        ensures
            d@ == seq_truncated(vec@, maxlen),
            d.spec_maxlen() == maxlen,
            d.wf(),
    {
        let mut vec = vec;
        vec.truncate(maxlen);
        Deque { deque: vec_into_vec_deque(vec), maxlen }
    }

    /// Creates a new deque holding exactly the elements of the given
    /// vector, with the maximum length set to that vector's length — the
    /// deque starts out full.  This is how a deque is rebuilt from a
    /// decoded element sequence, whose own length is all that is known of
    /// the lost maximum.
    #[must_use]
    pub fn from_vec_full(vec: Vec<T>) -> (d: Self)
        ensures
            d@ == vec@,
            d.spec_maxlen() == vec@.len(),
            d.wf(),
    {
        let maxlen = vec.len();
        Deque::from_vec(vec, maxlen)
    }

    /// Creates a new deque from an existing `VecDeque` with a given maximum
    /// length.  If the given `VecDeque` is longer than the maximum length,
    /// only its first `maxlen` elements are kept.
    #[must_use]
    pub fn from_vec_deque(deque: VecDeque<T>, maxlen: usize) -> (d: Self)
        ensures
            d@ == seq_truncated(deque@, maxlen),
            d.spec_maxlen() == maxlen,
            d.wf(),
    {
        let mut deque = deque;
        deque.truncate(maxlen);
        Deque { deque, maxlen }
    }

    /// Returns the maximum length of the deque.
    #[must_use]
    #[verifier::when_used_as_spec(spec_maxlen)]
    pub fn maxlen(&self) -> (m: usize)
        ensures
            m == self.spec_maxlen(),
    {
        self.maxlen
    }

    /// Returns the number of elements in the deque.
    #[must_use]
    pub fn len(&self) -> (n: usize)
        ensures
            n == self@.len(),
    {
        self.deque.len()
    }

    /// Returns whether the deque is empty.
    #[must_use]
    pub fn is_empty(&self) -> (r: bool)
        ensures
            r == (self@.len() == 0),
    {
        self.deque.len() == 0
    }

    /// Returns whether the deque is at its maximum length, so that the next
    /// push will evict an element from the opposite end.
    #[must_use]
    pub fn is_full(&self) -> (r: bool)
        ensures
            r == (self@.len() == self.spec_maxlen()),
    {
        self.deque.len() == self.maxlen
    }

    /// Returns how many more elements the deque can take before it starts
    /// evicting, never less than zero.
    #[must_use]
    pub fn remaining_capacity(&self) -> (r: usize)
        ensures
            r == if self@.len() <= self.spec_maxlen() {
                self.spec_maxlen() - self@.len()
            } else {
                0
            },
    {
        let n = self.deque.len();
        if n <= self.maxlen {
            self.maxlen - n
        } else {
            0
        }
    }

    /// Clears all elements from the deque, making it empty.  The maximum
    /// length is unchanged.
    pub fn clear(&mut self)
        ensures
            final(self)@ == Seq::<T>::empty(),
            final(self).spec_maxlen() == old(self).spec_maxlen(),
            final(self).wf(),
    {
        self.deque.clear();
    }
}

impl<T> Default for Deque<T> {
    /// An empty deque with a maximum length of zero.
    fn default() -> (d: Self)
        ensures
            d@ == Seq::<T>::empty(),
            d.spec_maxlen() == 0,
            d.wf(),
    {
        Deque::new(0)
    }
}

impl<T: Clone> Clone for Deque<T> {
    /// Clones the elements one by one; the maximum length carries over.
    fn clone(&self) -> (res: Self)
        ensures
            res@.len() == self@.len(),
            forall|i: int|
                0 <= i < self@.len() ==> vstd::pervasive::cloned::<T>(self@[i], res@[i]),
            res.spec_maxlen() == self.spec_maxlen(),
            self.wf() ==> res.wf(),
    {
        Deque { deque: self.deque.clone(), maxlen: self.maxlen }
    }
}

} // verus!
