//! Binary search over a deque whose contents are sorted for the ordering
//! in use.
//!
//! On unsorted contents the functions still terminate and return some
//! answer, but nothing is promised of it; the contracts speak under the
//! hypothesis that the contents are sorted (and, for the `Ord`-based
//! search, that the element type's comparison obeys its specification).

use crate::Deque;
use core::cmp::Ordering;
use vstd::laws_cmp::obeys_cmp;
use vstd::prelude::*;
use vstd::std_specs::cmp::OrdSpec;
use vstd::std_specs::cmp::PartialEqSpec;
use vstd::std_specs::cmp::PartialOrdSpec;

verus! {

broadcast use vstd::std_specs::vecdeque::group_vec_dequeue_axioms;

/// Non-decreasing for the element type's own comparison: no earlier
/// element compares greater than a later one.
pub open spec fn sorted_by_cmp<T: Ord>(s: Seq<T>) -> bool {
    forall|i: int, j: int|
        0 <= i < j < s.len() ==> #[trigger] s[i].cmp_spec(&s[j]) != Ordering::Greater
}

/// For a lawful ordering, something no greater than a value that compares
/// less than `z` itself compares less than `z`.
proof fn lemma_le_lt_trans<T: Ord>(x: T, y: T, z: T)
    requires
        obeys_cmp::<T>(),
        x.cmp_spec(&y) != Ordering::Greater,
        y.cmp_spec(&z) == Ordering::Less,
    ensures
        x.cmp_spec(&z) == Ordering::Less,
{
    reveal(vstd::laws_cmp::obeys_partial_cmp_spec_properties);
    reveal(vstd::laws_cmp::obeys_cmp_partial_ord);
    reveal(vstd::laws_cmp::obeys_cmp_ord);
    reveal(vstd::laws_eq::obeys_eq_spec_properties);
}

/// For a lawful ordering, something no less than a value that compares
/// greater than `z` itself compares greater than `z`.
proof fn lemma_ge_gt_trans<T: Ord>(x: T, y: T, z: T)
    requires
        obeys_cmp::<T>(),
        x.cmp_spec(&y) != Ordering::Greater,
        x.cmp_spec(&z) == Ordering::Greater,
    ensures
        y.cmp_spec(&z) == Ordering::Greater,
{
    reveal(vstd::laws_cmp::obeys_partial_cmp_spec_properties);
    reveal(vstd::laws_cmp::obeys_cmp_partial_ord);
    reveal(vstd::laws_cmp::obeys_cmp_ord);
    reveal(vstd::laws_eq::obeys_eq_spec_properties);
}

impl<T: Ord> Deque<T> {
    /// Searches the sorted deque for an element equal to `value`.  On
    /// success the index of a matching element is returned (any one of
    /// them, if several are equal); on failure the returned index is the
    /// insertion point that would keep the contents sorted.
    pub fn binary_search(&self, value: &T) -> (r: Result<usize, usize>)
        ensures
            obeys_cmp::<T>() && sorted_by_cmp(self@) ==> match r {
                Ok(i) => i < self@.len() && self@[i as int].cmp_spec(value) == Ordering::Equal,
                Err(i) => {
                    &&& i <= self@.len()
                    &&& (forall|j: int|
                        0 <= j < i ==> #[trigger] self@[j].cmp_spec(value) == Ordering::Less)
                    &&& (forall|j: int|
                        i <= j < self@.len() ==> #[trigger] self@[j].cmp_spec(value)
                            == Ordering::Greater)
                },
            },
    {
        let ghost hyp = obeys_cmp::<T>() && sorted_by_cmp(self@);
        let mut lo: usize = 0;
        let mut hi: usize = self.deque.len();
        while lo < hi
            invariant
                hyp == (obeys_cmp::<T>() && sorted_by_cmp(self@)),
                lo <= hi <= self@.len(),
                hyp ==> forall|j: int|
                    0 <= j < lo ==> #[trigger] self@[j].cmp_spec(value) == Ordering::Less,
                hyp ==> forall|j: int|
                    hi <= j < self@.len() ==> #[trigger] self@[j].cmp_spec(value)
                        == Ordering::Greater,
            decreases hi - lo,
        {
            let mid = lo + (hi - lo) / 2;
            let e = &self.deque[mid];
            let ord = e.cmp(value);
            proof {
                if hyp {
                    reveal(vstd::laws_cmp::obeys_cmp_ord);
                    assert(ord == self@[mid as int].cmp_spec(value));
                }
            }
            match ord {
                Ordering::Less => {
                    proof {
                        if hyp {
                            assert forall|j: int| 0 <= j <= mid implies #[trigger] self@[j].cmp_spec(
                                value,
                            ) == Ordering::Less by {
                                if j < mid {
                                    lemma_le_lt_trans(self@[j], self@[mid as int], *value);
                                }
                            }
                        }
                    }
                    lo = mid + 1;
                },
                Ordering::Greater => {
                    proof {
                        if hyp {
                            assert forall|j: int| mid <= j < self@.len() implies #[trigger] self@[j].cmp_spec(
                                value,
                            ) == Ordering::Greater by {
                                if j > mid {
                                    lemma_ge_gt_trans(self@[mid as int], self@[j], *value);
                                }
                            }
                        }
                    }
                    hi = mid;
                },
                Ordering::Equal => {
                    return Ok(mid);
                },
            }
        }
        Err(lo)
    }

    /// Searches the deque, assumed sorted for the order the comparator
    /// decides, with a caller-supplied comparator that says for each
    /// element whether it is less than, equal to, or greater than the
    /// sought value.  On success the returned index carries an element the
    /// comparator called equal; on failure the returned index is bracketed
    /// by a neighbour called less below it and one called greater at it,
    /// which for a comparator consistent with a total order is the
    /// insertion point.
    pub fn binary_search_by<F: Fn(&T) -> Ordering>(&self, f: F) -> (r: Result<usize, usize>)
        requires
            forall|i: int| 0 <= i < self@.len() ==> #[trigger] f.requires((&self@[i],)),
        ensures
            match r {
                Ok(i) => i < self@.len() && f.ensures((&self@[i as int],), Ordering::Equal),
                Err(i) => {
                    &&& i <= self@.len()
                    &&& (i > 0 ==> f.ensures((&self@[i as int - 1],), Ordering::Less))
                    &&& (i < self@.len() ==> f.ensures((&self@[i as int],), Ordering::Greater))
                },
            },
    {
        let mut lo: usize = 0;
        let mut hi: usize = self.deque.len();
        while lo < hi
            invariant
                forall|i: int| 0 <= i < self@.len() ==> #[trigger] f.requires((&self@[i],)),
                lo <= hi <= self@.len(),
                lo > 0 ==> f.ensures((&self@[lo as int - 1],), Ordering::Less),
                hi < self@.len() ==> f.ensures((&self@[hi as int],), Ordering::Greater),
            decreases hi - lo,
        {
            let mid = lo + (hi - lo) / 2;
            let e = &self.deque[mid];
            match f(e) {
                Ordering::Less => {
                    lo = mid + 1;
                },
                Ordering::Greater => {
                    hi = mid;
                },
                Ordering::Equal => {
                    return Ok(mid);
                },
            }
        }
        Err(lo)
    }

    /// Searches the deque, assumed sorted by the extracted key, for an
    /// element whose key equals `key`.  On success the returned index
    /// carries an element whose extracted key compares equal; on failure
    /// the returned index is bracketed by a neighbour whose key compares
    /// less below it and one whose key compares greater at it, which for
    /// key-sorted contents is the insertion point.
    pub fn binary_search_by_key<B: Ord, F: Fn(&T) -> B>(&self, key: &B, f: F) -> (r: Result<
        usize,
        usize,
    >)
        requires
            forall|i: int| 0 <= i < self@.len() ==> #[trigger] f.requires((&self@[i],)),
        ensures
            obeys_cmp::<B>() ==> match r {
                Ok(i) => i < self@.len() && exists|b: B|
                    #[trigger] f.ensures((&self@[i as int],), b) && b.cmp_spec(key)
                        == Ordering::Equal,
                Err(i) => {
                    &&& i <= self@.len()
                    &&& (i > 0 ==> exists|b: B|
                        #[trigger] f.ensures((&self@[i as int - 1],), b) && b.cmp_spec(key)
                            == Ordering::Less)
                    &&& (i < self@.len() ==> exists|b: B|
                        #[trigger] f.ensures((&self@[i as int],), b) && b.cmp_spec(key)
                            == Ordering::Greater)
                },
            },
    {
        let mut lo: usize = 0;
        let mut hi: usize = self.deque.len();
        while lo < hi
            invariant
                forall|i: int| 0 <= i < self@.len() ==> #[trigger] f.requires((&self@[i],)),
                lo <= hi <= self@.len(),
                obeys_cmp::<B>() ==> (lo > 0 ==> exists|b: B|
                    #[trigger] f.ensures((&self@[lo as int - 1],), b) && b.cmp_spec(key)
                        == Ordering::Less),
                obeys_cmp::<B>() ==> (hi < self@.len() ==> exists|b: B|
                    #[trigger] f.ensures((&self@[hi as int],), b) && b.cmp_spec(key)
                        == Ordering::Greater),
            decreases hi - lo,
        {
            let mid = lo + (hi - lo) / 2;
            let e = &self.deque[mid];
            let b = f(e);
            let ord = b.cmp(key);
            proof {
                if obeys_cmp::<B>() {
                    reveal(vstd::laws_cmp::obeys_cmp_ord);
                    assert(ord == b.cmp_spec(key));
                    assert(f.ensures((&self@[mid as int],), b));
                }
            }
            match ord {
                Ordering::Less => {
                    lo = mid + 1;
                    proof {
                        if obeys_cmp::<B>() {
                            assert(f.ensures((&self@[lo as int - 1],), b));
                        }
                    }
                },
                Ordering::Greater => {
                    hi = mid;
                },
                Ordering::Equal => {
                    return Ok(mid);
                },
            }
        }
        Err(lo)
    }
}

} // verus!
