//! Keeping only the elements that satisfy a caller-supplied predicate.
//!
//! The predicate is an arbitrary function value, so its verdicts are known
//! only through `call_ensures`; the contracts therefore say that some
//! sequence of verdicts, each one a possible answer of the predicate for
//! the element it judged, selected the elements that remain.

use crate::Deque;
use vstd::prelude::*;

verus! {

broadcast use vstd::std_specs::vecdeque::group_vec_dequeue_axioms;

/// The elements of `s` at the positions where `keep` says `true`, in
/// their original order.
pub open spec fn mask_filter<T>(s: Seq<T>, keep: Seq<bool>) -> Seq<T>
    recommends
        s.len() == keep.len(),
    decreases s.len(),
{
    if s.len() == 0 || keep.len() == 0 {
        Seq::empty()
    } else {
        let rest = mask_filter(s.drop_last(), keep.drop_last());
        if keep.last() {
            rest.push(s.last())
        } else {
            rest
        }
    }
}

/// A mask that keeps everything changes nothing.
pub proof fn lemma_mask_filter_all_true<T>(s: Seq<T>, keep: Seq<bool>)
    requires
        keep.len() == s.len(),
        forall|i: int| 0 <= i < keep.len() ==> keep[i],
    ensures
        mask_filter(s, keep) == s,
    decreases s.len(),
{
    if s.len() > 0 {
        lemma_mask_filter_all_true(s.drop_last(), keep.drop_last());
        assert(mask_filter(s, keep) =~= s);
    } else {
        assert(mask_filter(s, keep) =~= s);
    }
}

/// A mask that keeps nothing empties the sequence.
pub proof fn lemma_mask_filter_all_false<T>(s: Seq<T>, keep: Seq<bool>)
    requires
        keep.len() == s.len(),
        forall|i: int| 0 <= i < keep.len() ==> !keep[i],
    ensures
        mask_filter(s, keep) == Seq::<T>::empty(),
    decreases s.len(),
{
    if s.len() > 0 {
        lemma_mask_filter_all_false(s.drop_last(), keep.drop_last());
    }
}

/// Filtering never keeps more elements than there were.
pub proof fn lemma_mask_filter_len<T>(s: Seq<T>, keep: Seq<bool>)
    ensures
        mask_filter(s, keep).len() <= s.len(),
    decreases s.len(),
{
    if s.len() > 0 && keep.len() > 0 {
        lemma_mask_filter_len(s.drop_last(), keep.drop_last());
    }
}

/// The element of each pair, in order.
pub open spec fn firsts<T>(results: Seq<(T, bool)>) -> Seq<T> {
    Seq::new(results.len(), |i: int| results[i].0)
}

/// The verdict of each pair, in order.
pub open spec fn seconds<T>(results: Seq<(T, bool)>) -> Seq<bool> {
    Seq::new(results.len(), |i: int| results[i].1)
}

impl<T> Deque<T> {
    /// Keeps only the elements for which the predicate answers `true`,
    /// preserving their order and visiting each element exactly once,
    /// front to back.
    pub fn retain<F: Fn(&T) -> bool>(&mut self, f: F)
        requires
            old(self).wf(),
            forall|i: int|
                0 <= i < old(self)@.len() ==> #[trigger] f.requires((&old(self)@[i],)),
        ensures
            final(self).wf(),
            final(self).spec_maxlen() == old(self).spec_maxlen(),
            exists|keep: Seq<bool>|
                {
                    &&& keep.len() == old(self)@.len()
                    &&& (forall|i: int|
                        0 <= i < keep.len() ==> #[trigger] f.ensures(
                            (&old(self)@[i],),
                            keep[i],
                        ))
                    &&& final(self)@ == mask_filter(old(self)@, keep)
                },
    {
        let mut kept: std::collections::VecDeque<T> = std::collections::VecDeque::new();
        let ghost mut keep: Seq<bool> = Seq::empty();
        while self.deque.len() > 0
            invariant
                forall|i: int|
                    0 <= i < old(self)@.len() ==> #[trigger] f.requires((&old(self)@[i],)),
                keep.len() <= old(self)@.len(),
                self@ == old(self)@.skip(keep.len() as int),
                forall|i: int|
                    0 <= i < keep.len() ==> #[trigger] f.ensures((&old(self)@[i],), keep[i]),
                kept@ == mask_filter(old(self)@.take(keep.len() as int), keep),
                self.spec_maxlen() == old(self).spec_maxlen(),
            decreases self.deque.len(),
        {
            let ghost k = keep.len() as int;
            let x = self.deque.pop_front().unwrap();
            proof {
                assert(x == old(self)@[k]);
            }
            let b = f(&x);
            proof {
                let prev = keep;
                keep = keep.push(b);
                assert(keep.drop_last() =~= prev);
                assert(old(self)@.take(k + 1).drop_last() =~= old(self)@.take(k));
            }
            if b {
                kept.push_back(x);
            }
            proof {
                assert(kept@ =~= mask_filter(old(self)@.take(keep.len() as int), keep));
            }
        }
        self.deque = kept;
        proof {
            assert(old(self)@.take(keep.len() as int) =~= old(self)@);
            lemma_mask_filter_len(old(self)@, keep);
        }
    }

    /// Keeps only the elements for which the predicate answers `true`,
    /// front to back, letting the predicate modify each element before the
    /// keep-or-drop decision falls: it receives each element by value and
    /// returns the element to keep (or drop) together with the verdict.
    /// Each element is visited exactly once.
    pub fn retain_mut<F: Fn(T) -> (T, bool)>(&mut self, f: F)
        requires
            old(self).wf(),
            forall|i: int| 0 <= i < old(self)@.len() ==> #[trigger] f.requires((old(self)@[i],)),
        ensures
            final(self).wf(),
            final(self).spec_maxlen() == old(self).spec_maxlen(),
            exists|results: Seq<(T, bool)>|
                {
                    &&& results.len() == old(self)@.len()
                    &&& (forall|i: int|
                        0 <= i < results.len() ==> #[trigger] f.ensures(
                            (old(self)@[i],),
                            results[i],
                        ))
                    &&& final(self)@ == mask_filter(firsts(results), seconds(results))
                },
    {
        let mut kept: std::collections::VecDeque<T> = std::collections::VecDeque::new();
        let ghost mut results: Seq<(T, bool)> = Seq::empty();
        while self.deque.len() > 0
            invariant
                forall|i: int|
                    0 <= i < old(self)@.len() ==> #[trigger] f.requires((old(self)@[i],)),
                results.len() <= old(self)@.len(),
                self@ == old(self)@.skip(results.len() as int),
                forall|i: int|
                    0 <= i < results.len() ==> #[trigger] f.ensures((old(self)@[i],), results[i]),
                kept@ == mask_filter(firsts(results), seconds(results)),
                self.spec_maxlen() == old(self).spec_maxlen(),
            decreases self.deque.len(),
        {
            let ghost k = results.len() as int;
            let x = self.deque.pop_front().unwrap();
            proof {
                assert(x == old(self)@[k]);
            }
            let r = f(x);
            let (y, b) = r;
            proof {
                let prev = results;
                results = results.push(r);
                assert(firsts(results).drop_last() =~= firsts(prev));
                assert(seconds(results).drop_last() =~= seconds(prev));
            }
            if b {
                kept.push_back(y);
            }
            proof {
                assert(kept@ =~= mask_filter(firsts(results), seconds(results)));
            }
        }
        self.deque = kept;
        proof {
            lemma_mask_filter_len(firsts(results), seconds(results));
        }
    }
}

} // verus!
