//! Mutating operations: insertion with eviction, removal, and bulk
//! structural changes.

use crate::Deque;
use vstd::prelude::*;

verus! {

broadcast use vstd::std_specs::vecdeque::group_vec_dequeue_axioms;

/// The sequence left after pushing `value` at the back of `s` in a deque
/// bounded by `maxlen`: if `s` is shorter than `maxlen` the value is
/// appended, otherwise the front element gives way first (and a bound of
/// zero leaves no room at all).
pub open spec fn pushed_back<T>(s: Seq<T>, value: T, maxlen: usize) -> Seq<T> {
    if s.len() < maxlen {
        s.push(value)
    } else if maxlen == 0 {
        s
    } else {
        s.skip(1).push(value)
    }
}

/// The sequence left after pushing `value` at the front of `s` in a deque
/// bounded by `maxlen`: if `s` is shorter than `maxlen` the value is
/// prepended, otherwise the back element gives way first (and a bound of
/// zero leaves no room at all).
pub open spec fn pushed_front<T>(s: Seq<T>, value: T, maxlen: usize) -> Seq<T> {
    if s.len() < maxlen {
        seq![value] + s
    } else if maxlen == 0 {
        s
    } else {
        seq![value] + s.take(s.len() - 1)
    }
}

/// The sequence left after pushing every element of `values` in turn at
/// the back of `s`, each push evicting from the front once `s` is at its
/// maximum length.
pub open spec fn extended_back<T>(s: Seq<T>, values: Seq<T>, maxlen: usize) -> Seq<T>
    decreases values.len(),
{
    if values.len() == 0 {
        s
    } else {
        extended_back(pushed_back(s, values[0], maxlen), values.skip(1), maxlen)
    }
}

/// The sequence left after pushing every element of `values` in turn at
/// the front of `s`, each push evicting from the back once `s` is at its
/// maximum length.
pub open spec fn extended_front<T>(s: Seq<T>, values: Seq<T>, maxlen: usize) -> Seq<T>
    decreases values.len(),
{
    if values.len() == 0 {
        s
    } else {
        extended_front(pushed_front(s, values[0], maxlen), values.skip(1), maxlen)
    }
}

/// The last `maxlen` elements of `total`, or all of it if it is shorter.
pub open spec fn last_up_to<T>(total: Seq<T>, maxlen: usize) -> Seq<T> {
    if total.len() <= maxlen {
        total
    } else {
        total.skip(total.len() - maxlen)
    }
}

/// The first `maxlen` elements of `total`, or all of it if it is shorter.
pub open spec fn first_up_to<T>(total: Seq<T>, maxlen: usize) -> Seq<T> {
    if total.len() <= maxlen {
        total
    } else {
        total.take(maxlen as int)
    }
}

/// Extending at the back, one element at a time, keeps exactly the last
/// `maxlen` elements of the concatenation of the old contents and the new
/// values.
pub proof fn lemma_extended_back_is_suffix<T>(s: Seq<T>, values: Seq<T>, maxlen: usize)
    requires
        s.len() <= maxlen,
    ensures
        extended_back(s, values, maxlen) == last_up_to(s + values, maxlen),
    decreases values.len(),
{
    if values.len() == 0 {
        assert(s + values =~= s);
    } else {
        let v0 = values[0];
        let p = pushed_back(s, v0, maxlen);
        lemma_extended_back_is_suffix(p, values.skip(1), maxlen);
        if maxlen == 0 {
            assert(last_up_to(p + values.skip(1), maxlen) =~= last_up_to(s + values, maxlen));
        } else if s.len() < maxlen {
            assert(p + values.skip(1) =~= s + values);
        } else {
            assert(p + values.skip(1) =~= (s + values).skip(1));
            assert(last_up_to((s + values).skip(1), maxlen) =~= last_up_to(s + values, maxlen));
        }
    }
}

/// Extending at the front, one element at a time, lays the new values
/// down in reverse order before the old contents, and keeps exactly the
/// first `maxlen` elements of the result.
pub proof fn lemma_extended_front_is_prefix<T>(s: Seq<T>, values: Seq<T>, maxlen: usize)
    requires
        s.len() <= maxlen,
    ensures
        extended_front(s, values, maxlen) == first_up_to(values.reverse() + s, maxlen),
    decreases values.len(),
{
    if values.len() == 0 {
        assert(values.reverse() + s =~= s);
    } else {
        let v0 = values[0];
        let p = pushed_front(s, v0, maxlen);
        lemma_extended_front_is_prefix(p, values.skip(1), maxlen);
        if maxlen == 0 {
            assert(first_up_to(values.skip(1).reverse() + p, maxlen) =~= first_up_to(
                values.reverse() + s,
                maxlen,
            ));
        } else if s.len() < maxlen {
            assert(values.skip(1).reverse() + p =~= values.reverse() + s);
        } else {
            assert(first_up_to(values.skip(1).reverse() + p, maxlen) =~= first_up_to(
                values.reverse() + s,
                maxlen,
            ));
        }
    }
}

impl<T> Deque<T> {
    /// Adds an element to the back of the deque.  If the deque is already
    /// at its maximum length, the front element is evicted and returned;
    /// otherwise `None` is returned.  With a maximum length of zero the
    /// value itself is the front element the moment it arrives, so it comes
    /// straight back.
    pub fn push_back(&mut self, value: T) -> (evicted: Option<T>)
        requires
            old(self).wf(),
        ensures
            final(self).wf(),
            final(self).spec_maxlen() == old(self).spec_maxlen(),
            final(self)@ == pushed_back(old(self)@, value, old(self).spec_maxlen()),
            evicted == if old(self)@.len() < old(self).spec_maxlen() {
                Option::<T>::None
            } else if old(self).spec_maxlen() == 0 {
                Some(value)
            } else {
                Some(old(self)@[0])
            },
    {
        if self.deque.len() == self.maxlen {
            if self.maxlen == 0 {
                return Some(value);
            }
            let popped = self.deque.pop_front();
            self.deque.push_back(value);
            popped
        } else {
            self.deque.push_back(value);
            None
        }
    }

    /// Prepends an element to the deque.  If the deque is already at its
    /// maximum length, the back element is evicted and returned; otherwise
    /// `None` is returned.  With a maximum length of zero the value itself
    /// is the back element the moment it arrives, so it comes straight
    /// back.
    pub fn push_front(&mut self, value: T) -> (evicted: Option<T>)
        requires
            old(self).wf(),
        ensures
            final(self).wf(),
            final(self).spec_maxlen() == old(self).spec_maxlen(),
            final(self)@ == pushed_front(old(self)@, value, old(self).spec_maxlen()),
            evicted == if old(self)@.len() < old(self).spec_maxlen() {
                Option::<T>::None
            } else if old(self).spec_maxlen() == 0 {
                Some(value)
            } else {
                Some(old(self)@[old(self)@.len() - 1])
            },
    {
        if self.deque.len() == self.maxlen {
            if self.maxlen == 0 {
                return Some(value);
            }
            let popped = self.deque.pop_back();
            self.deque.push_front(value);
            popped
        } else {
            self.deque.push_front(value);
            None
        }
    }

    /// Removes the first element and returns it, or `None` if the deque is
    /// empty.
    pub fn pop_front(&mut self) -> (r: Option<T>)
        ensures
            final(self).spec_maxlen() == old(self).spec_maxlen(),
            old(self)@.len() == 0 ==> r is None && final(self)@ == old(self)@,
            old(self)@.len() > 0 ==> r == Some(old(self)@[0]) && final(self)@ == old(self)@.skip(1),
            old(self).wf() ==> final(self).wf(),
    {
        self.deque.pop_front()
    }

    /// Removes the last element and returns it, or `None` if the deque is
    /// empty.
    pub fn pop_back(&mut self) -> (r: Option<T>)
        ensures
            final(self).spec_maxlen() == old(self).spec_maxlen(),
            old(self)@.len() == 0 ==> r is None && final(self)@ == old(self)@,
            old(self)@.len() > 0 ==> r == Some(old(self)@.last()) && final(self)@ == old(self)@.take(old(self)@.len() - 1),
            old(self).wf() ==> final(self).wf(),
    {
        self.deque.pop_back()
    }

    /// Inserts `value` at position `index`, shifting the elements from
    /// `index` on towards the back.  If the deque is already at its maximum
    /// length, the back element is evicted and returned *before* the
    /// insertion, so `index` is checked against the length after that
    /// eviction.  With a maximum length of zero the value cannot be kept
    /// and comes straight back.
    pub fn insert(&mut self, index: usize, value: T) -> (evicted: Option<T>)
        requires
            old(self).wf(),
            index <= if old(self)@.len() == old(self).spec_maxlen() && old(self).spec_maxlen()
                > 0 {
                old(self)@.len() - 1
            } else {
                old(self)@.len() as int
            },
        ensures
            final(self).wf(),
            final(self).spec_maxlen() == old(self).spec_maxlen(),
            old(self)@.len() < old(self).spec_maxlen() ==> final(self)@ == old(self)@.insert(
                index as int,
                value,
            ) && evicted is None,
            old(self)@.len() == old(self).spec_maxlen() && old(self).spec_maxlen() == 0 ==> final(self)@ == old(self)@ && evicted == Some(value),
            old(self)@.len() == old(self).spec_maxlen() && old(self).spec_maxlen() > 0 ==> final(self)@ == old(self)@.take(old(self)@.len() - 1).insert(index as int, value) && evicted
                == Some(old(self)@.last()),
    {
        if self.deque.len() == self.maxlen {
            if self.maxlen == 0 {
                return Some(value);
            }
            let popped = self.deque.pop_back();
            self.deque.insert(index, value);
            popped
        } else {
            self.deque.insert(index, value);
            None
        }
    }

    /// Removes and returns the element at `index`, shifting its neighbours
    /// to close the gap, or returns `None` if `index` is out of bounds.
    /// The length only decreases, so nothing is ever evicted.
    pub fn remove(&mut self, index: usize) -> (r: Option<T>)
        ensures
            final(self).spec_maxlen() == old(self).spec_maxlen(),
            index < old(self)@.len() ==> r == Some(old(self)@[index as int]) && final(self)@ == old(self)@.remove(index as int),
            index >= old(self)@.len() ==> r is None && final(self)@ == old(self)@,
            old(self).wf() ==> final(self).wf(),
    {
        self.deque.remove(index)
    }

    /// Appends every element of `values` at the back in turn, evicting
    /// from the front for each element once the deque is full, exactly as
    /// repeated [`Deque::push_back`] would; the evicted elements are
    /// dropped.
    pub fn extend(&mut self, values: Vec<T>)
        requires
            old(self).wf(),
        ensures
            final(self).wf(),
            final(self).spec_maxlen() == old(self).spec_maxlen(),
            final(self)@ == extended_back(old(self)@, values@, old(self).spec_maxlen()),
    {
        let ghost all = values@;
        let mut q = crate::vec_into_vec_deque(values);
        loop
            invariant
                all == values@,
                self.wf(),
                self.spec_maxlen() == old(self).spec_maxlen(),
                extended_back(self@, q@, self.spec_maxlen()) == extended_back(
                    old(self)@,
                    all,
                    self.spec_maxlen(),
                ),
            decreases q.len(),
        {
            let popped = q.pop_front();
            match popped {
                Some(x) => {
                    self.push_back(x);
                },
                None => {
                    proof {
                        assert(extended_back(self@, q@, self.spec_maxlen()) == self@);
                    }
                    return;
                },
            }
        }
    }

    /// Prepends every element of `values` in turn, evicting from the back
    /// for each element once the deque is full, exactly as repeated
    /// [`Deque::push_front`] would; the prepended run therefore ends up in
    /// the reverse of its iteration order, and the evicted elements are
    /// dropped.
    pub fn extend_front(&mut self, values: Vec<T>)
        requires
            old(self).wf(),
        ensures
            final(self).wf(),
            final(self).spec_maxlen() == old(self).spec_maxlen(),
            final(self)@ == extended_front(old(self)@, values@, old(self).spec_maxlen()),
    {
        let ghost all = values@;
        let mut q = crate::vec_into_vec_deque(values);
        loop
            invariant
                all == values@,
                self.wf(),
                self.spec_maxlen() == old(self).spec_maxlen(),
                extended_front(self@, q@, self.spec_maxlen()) == extended_front(
                    old(self)@,
                    all,
                    self.spec_maxlen(),
                ),
            decreases q.len(),
        {
            let popped = q.pop_front();
            match popped {
                Some(x) => {
                    self.push_front(x);
                },
                None => {
                    proof {
                        assert(extended_front(self@, q@, self.spec_maxlen()) == self@);
                    }
                    return;
                },
            }
        }
    }

    /// Removes the elements at positions `start` up to (but not including)
    /// `end` and returns them in order, closing the gap.  A range with
    /// `start > end` or `end` beyond the length is a caller error and is
    /// excluded by the precondition.
    pub fn drain(&mut self, start: usize, end: usize) -> (drained: Vec<T>)
        requires
            start <= end,
            end <= old(self)@.len(),
        ensures
            final(self).spec_maxlen() == old(self).spec_maxlen(),
            drained@ == old(self)@.subrange(start as int, end as int),
            final(self)@ == old(self)@.subrange(0, start as int) + old(self)@.subrange(
                end as int,
                old(self)@.len() as int,
            ),
            old(self).wf() ==> final(self).wf(),
    {
        let mut middle = self.deque.split_off(start);
        let mut back = middle.split_off(end - start);
        self.deque.append(&mut back);
        proof {
            assert(middle@ =~= old(self)@.subrange(start as int, end as int));
            assert(self.deque@ =~= old(self)@.subrange(0, start as int) + old(self)@.subrange(
                end as int,
                old(self)@.len() as int,
            ));
        }
        crate::vec_deque_into_vec(middle)
    }

    /// Cyclically shifts the elements `n` positions towards the front, so
    /// the element at position `n` becomes the front.  An `n` beyond the
    /// length is a caller error and is excluded by the precondition;
    /// `n == len()` is a complete rotation and changes nothing.
    pub fn rotate_left(&mut self, n: usize)
        requires
            n <= old(self)@.len(),
        ensures
            final(self).spec_maxlen() == old(self).spec_maxlen(),
            final(self)@ == old(self)@.skip(n as int) + old(self)@.take(n as int),
            old(self).wf() ==> final(self).wf(),
    {
        let mut k: usize = 0;
        while k < n
            invariant
                k <= n <= old(self)@.len(),
                self.spec_maxlen() == old(self).spec_maxlen(),
                self@ == old(self)@.skip(k as int) + old(self)@.take(k as int),
            decreases n - k,
        {
            let x = self.deque.pop_front().unwrap();
            self.deque.push_back(x);
            k += 1;
            proof {
                assert(self@ =~= old(self)@.skip(k as int) + old(self)@.take(k as int));
            }
        }
    }

    /// Cyclically shifts the elements `n` positions towards the back, so
    /// the previous back element ends up at position `n - 1`.  An `n`
    /// beyond the length is a caller error and is excluded by the
    /// precondition; `n == len()` is a complete rotation and changes
    /// nothing.
    pub fn rotate_right(&mut self, n: usize)
        requires
            n <= old(self)@.len(),
        ensures
            final(self).spec_maxlen() == old(self).spec_maxlen(),
            final(self)@ == old(self)@.skip(old(self)@.len() - n) + old(self)@.take(
                old(self)@.len() - n,
            ),
            old(self).wf() ==> final(self).wf(),
    {
        let ghost len = old(self)@.len() as int;
        let mut k: usize = 0;
        while k < n
            invariant
                k <= n <= len,
                len == old(self)@.len(),
                self.spec_maxlen() == old(self).spec_maxlen(),
                self@ == old(self)@.skip(len - k) + old(self)@.take(len - k),
            decreases n - k,
        {
            let x = self.deque.pop_back().unwrap();
            self.deque.push_front(x);
            k += 1;
            proof {
                assert(self@ =~= old(self)@.skip(len - k) + old(self)@.take(len - k));
            }
        }
    }

    /// Reverses the order of the elements in place.
    pub fn reverse(&mut self)
        ensures
            final(self).spec_maxlen() == old(self).spec_maxlen(),
            final(self)@ == old(self)@.reverse(),
            old(self).wf() ==> final(self).wf(),
    {
        let mut rev: std::collections::VecDeque<T> = std::collections::VecDeque::new();
        while self.deque.len() > 0
            invariant
                self.spec_maxlen() == old(self).spec_maxlen(),
                rev@.len() <= old(self)@.len(),
                self@ == old(self)@.skip(rev@.len() as int),
                rev@ == old(self)@.take(rev@.len() as int).reverse(),
            decreases self.deque.len(),
        {
            let x = self.deque.pop_front().unwrap();
            rev.push_front(x);
            proof {
                assert(self@ =~= old(self)@.skip(rev@.len() as int));
                assert(rev@ =~= old(self)@.take(rev@.len() as int).reverse());
            }
        }
        self.deque = rev;
        proof {
            assert(old(self)@.take(old(self)@.len() as int) =~= old(self)@);
        }
    }

    /// Exchanges the elements at positions `i` and `j`; `i == j` is a
    /// valid no-op.  An index beyond the length is a caller error and is
    /// excluded by the precondition.
    pub fn swap(&mut self, i: usize, j: usize)
        requires
            i < old(self)@.len(),
            j < old(self)@.len(),
        ensures
            final(self).spec_maxlen() == old(self).spec_maxlen(),
            final(self)@ == old(self)@.update(i as int, old(self)@[j as int]).update(
                j as int,
                old(self)@[i as int],
            ),
            old(self).wf() ==> final(self).wf(),
    {
        if i == j {
            proof {
                assert(old(self)@.update(i as int, old(self)@[j as int]).update(
                    j as int,
                    old(self)@[i as int],
                ) =~= old(self)@);
            }
            return;
        }
        let (lo, hi) = if i < j {
            (i, j)
        } else {
            (j, i)
        };
        let x = self.deque.remove(hi).unwrap();
        let y = self.deque.remove(lo).unwrap();
        self.deque.insert(lo, x);
        self.deque.insert(hi, y);
        proof {
            assert(self@ =~= old(self)@.update(i as int, old(self)@[j as int]).update(
                j as int,
                old(self)@[i as int],
            ));
        }
    }

    /// Drops every element at position `new_len` or beyond; does nothing if
    /// the deque is no longer than `new_len`.
    pub fn truncate(&mut self, new_len: usize)
        ensures
            final(self).spec_maxlen() == old(self).spec_maxlen(),
            new_len <= old(self)@.len() ==> final(self)@ == old(self)@.take(new_len as int),
            new_len > old(self)@.len() ==> final(self)@ == old(self)@,
            old(self).wf() ==> final(self).wf(),
    {
        self.deque.truncate(new_len);
    }
}

} // verus!
