//! Laws that relate several operations of the deque to one another.
//!
//! Each law is stated over the specification models that the operations'
//! own contracts use, so that it composes with those contracts at any
//! call site.

use crate::Deque;
use crate::eq::seqs_match;
use crate::seq_truncated;
use vstd::laws_eq::obeys_concrete_eq;
use vstd::prelude::*;
use vstd::std_specs::cmp::PartialEqSpec;

verus! {

/// Round trip: building a deque from the element sequence of an existing
/// deque, with that deque's own maximum length, reproduces the contents
/// exactly — construction-time truncation drops nothing from a sequence
/// that already fits.
pub proof fn lemma_construction_round_trip<T>(s: Seq<T>, maxlen: usize)
    requires
        s.len() <= maxlen,
    ensures
        seq_truncated(s, maxlen) == s,
{
}

/// Reversing twice restores the original order.
pub proof fn lemma_reverse_reverse<T>(s: Seq<T>)
    ensures
        s.reverse().reverse() == s,
{
    assert(s.reverse().reverse() =~= s);
}

/// Equality ignores capacity: two deques holding the same element
/// sequence compare equal whatever their maximum lengths, for element
/// types whose `==` agrees with value equality.
pub proof fn lemma_eq_ignores_maxlen<T: PartialEq>(a: &Deque<T>, b: &Deque<T>)
    requires
        obeys_concrete_eq::<T>(),
        a@ == b@,
    ensures
        a.eq_spec(b),
{
    reveal(vstd::laws_eq::obeys_concrete_eq);
    assert(seqs_match(a@, b@));
}

} // verus!
