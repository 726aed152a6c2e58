//! Element access: bounds-checked lookups, terminal elements, and views of
//! the underlying storage.

use crate::Deque;
use crate::vecdeque_extra::deque_as_slices;
use vstd::std_specs::iter::IteratorSpec;
use crate::vecdeque_extra::deque_capacity;
use crate::vecdeque_extra::deque_get_mut;
use crate::vecdeque_extra::deque_make_contiguous;
use vstd::prelude::*;

verus! {

broadcast use vstd::std_specs::vecdeque::group_vec_dequeue_axioms;

impl<T> Deque<T> {
    /// Returns a reference to the element at `index`, or `None` if `index`
    /// is out of bounds.
    #[must_use]
    pub fn get(&self, index: usize) -> (r: Option<&T>)
        ensures
            match r {
                Some(e) => index < self@.len() && *e == self@[index as int],
                None => index >= self@.len(),
            },
    {
        if index < self.deque.len() {
            Some(&self.deque[index])
        } else {
            None
        }
    }

    /// Returns a mutable reference to the element at `index`, or `None` if
    /// `index` is out of bounds.
    pub fn get_mut(&mut self, index: usize) -> (r: Option<&mut T>)
        ensures
            final(self).spec_maxlen() == old(self).spec_maxlen(),
            match r {
                Some(m) => index < old(self)@.len() && *m == old(self)@[index as int] && final(self)@ == old(self)@.update(index as int, *final(m)),
                None => index >= old(self)@.len() && final(self)@ == old(self)@,
            },
            old(self).wf() ==> final(self).wf(),
    {
        deque_get_mut(&mut self.deque, index)
    }

    /// Returns a reference to the front element, or `None` if the deque is
    /// empty.
    #[must_use]
    pub fn front(&self) -> (r: Option<&T>)
        ensures
            match r {
                Some(e) => self@.len() > 0 && *e == self@[0],
                None => self@.len() == 0,
            },
    {
        self.get(0)
    }

    /// Returns a reference to the back element, or `None` if the deque is
    /// empty.
    #[must_use]
    pub fn back(&self) -> (r: Option<&T>)
        ensures
            match r {
                Some(e) => self@.len() > 0 && *e == self@.last(),
                None => self@.len() == 0,
            },
    {
        if self.deque.len() > 0 {
            self.get(self.deque.len() - 1)
        } else {
            None
        }
    }

    /// Returns a mutable reference to the front element, or `None` if the
    /// deque is empty.
    pub fn front_mut(&mut self) -> (r: Option<&mut T>)
        ensures
            final(self).spec_maxlen() == old(self).spec_maxlen(),
            match r {
                Some(m) => old(self)@.len() > 0 && *m == old(self)@[0] && final(self)@ == old(self)@.update(0, *final(m)),
                None => old(self)@.len() == 0 && final(self)@ == old(self)@,
            },
            old(self).wf() ==> final(self).wf(),
    {
        self.get_mut(0)
    }

    /// Returns a mutable reference to the back element, or `None` if the
    /// deque is empty.
    pub fn back_mut(&mut self) -> (r: Option<&mut T>)
        ensures
            final(self).spec_maxlen() == old(self).spec_maxlen(),
            match r {
                Some(m) => old(self)@.len() > 0 && *m == old(self)@.last() && final(self)@ == old(self)@.update(old(self)@.len() - 1, *final(m)),
                None => old(self)@.len() == 0 && final(self)@ == old(self)@,
            },
            old(self).wf() ==> final(self).wf(),
    {
        let n = self.deque.len();
        if n > 0 {
            self.get_mut(n - 1)
        } else {
            self.get_mut(0)
        }
    }

    /// Returns how many elements the deque can hold without reallocating,
    /// capped at the maximum length.
    #[must_use]
    pub fn capacity(&self) -> (c: usize)
        requires
            self.wf(),
        ensures
            self@.len() <= c <= self.spec_maxlen(),
    {
        let raw = deque_capacity(&self.deque);
        if raw < self.maxlen {
            raw
        } else {
            self.maxlen
        }
    }

    /// Exposes the contents as the two contiguous runs of the ring buffer,
    /// front run first; together they are the whole deque in order.
    #[must_use]
    pub fn as_slices(&self) -> (r: (&[T], &[T]))
        ensures
            r.0@ + r.1@ == self@,
    {
        deque_as_slices(&self.deque)
    }

    /// Returns a fresh front-to-back iterator over references to the
    /// elements.
    #[must_use]
    pub fn iter(&self) -> (it: std::collections::vec_deque::Iter<'_, T>)
        ensures
            it.remaining() == self@.as_ref(),
    {
        self.deque.iter()
    }

    /// Returns references to every element except the last one, front to
    /// back; an empty or single-element deque yields nothing.
    #[must_use]
    pub fn iter_except_last(&self) -> (r: Vec<&T>)
        ensures
            r@ == if self@.len() == 0 {
                Seq::<&T>::empty()
            } else {
                self@.as_ref().take(self@.len() - 1)
            },
    {
        let n = self.deque.len();
        let m = if n > 0 {
            n - 1
        } else {
            0
        };
        let mut r: Vec<&T> = Vec::new();
        let mut i: usize = 0;
        while i < m
            invariant
                m < n || (m == 0 && n == 0),
                m <= n,
                n == self@.len(),
                i <= m,
                r@ == self@.as_ref().take(i as int),
            decreases m - i,
        {
            r.push(&self.deque[i]);
            proof {
                assert(r@ =~= self@.as_ref().take(i + 1));
            }
            i += 1;
        }
        proof {
            if n == 0 {
                assert(r@ =~= Seq::<&T>::empty());
            }
        }
        r
    }

    /// Rearranges the internal storage into one contiguous run, in place,
    /// leaving the contents and their order unchanged, and returns that
    /// run: a single slice holding the whole contents, as the slice
    /// accessors will from now on expose them.
    pub fn make_contiguous(&mut self) -> (r: &[T])
        ensures
            r@ == old(self)@,
            final(self)@ == old(self)@,
            final(self).spec_maxlen() == old(self).spec_maxlen(),
            old(self).wf() ==> final(self).wf(),
    {
        deque_make_contiguous(&mut self.deque)
    }

    /// Overwrites the element at position `index` with `value`.  An index
    /// beyond the length is a caller error and is excluded by the
    /// precondition.
    pub fn set(&mut self, index: usize, value: T)
        requires
            index < old(self)@.len(),
        ensures
            final(self)@ == old(self)@.update(index as int, value),
            final(self).spec_maxlen() == old(self).spec_maxlen(),
            old(self).wf() ==> final(self).wf(),
    {
        let slot = deque_get_mut(&mut self.deque, index);
        match slot {
            Some(m) => {
                *m = value;
            },
            None => {
            },
        }
    }
}

impl<T> std::ops::Index<usize> for Deque<T> {
    type Output = T;

    /// Direct indexed read; an index beyond the length is a caller error
    /// and is excluded by the precondition.
    fn index(&self, index: usize) -> (r: &T)
        ensures
            *r == self@[index as int],
    {
        &self.deque[index]
    }
}

impl<T> vstd::std_specs::core::IndexSpecImpl<usize> for Deque<T> {
    open spec fn index_req(&self, index: &usize) -> bool {
        *index < self@.len()
    }
}

} // verus!
