//! Callable objects: predicates and transforms held by adaptors.
//!
//! The adaptors carry their predicate or transform as a single-owner callable
//! object with one method.  A callable may keep mutable state of its own (a
//! call counter, say), but its observable meaning — the spec function
//! [`Predicate::test`] or [`Transform::apply`] — never changes across calls,
//! so the sequence an adaptor produces is a function of the meaning alone.

use vstd::prelude::*;
use crate::seqs::{index_where, lemma_index_where};

verus! {

/// The index of the first item of `s` the predicate rejects, or `s.len()`
/// if it accepts every item.
pub open spec fn first_reject<T, F: Predicate<T>>(s: Seq<T>, f: F) -> int {
    index_where(s, |x: T| !f.test(x))
}

/// The index of the first item of `s` the predicate accepts, or `s.len()`
/// if it rejects every item.
pub open spec fn first_accept<T, F: Predicate<T>>(s: Seq<T>, f: F) -> int {
    index_where(s, |x: T| f.test(x))
}

/// The characterisation of [`first_reject`]: it lies within bounds, the
/// items before it are all accepted, and it points at a rejected item unless
/// every item is accepted.
pub proof fn lemma_first_reject<T, F: Predicate<T>>(s: Seq<T>, f: F)
    ensures
        0 <= first_reject(s, f) <= s.len(),
        first_reject(s, f) < s.len() ==> !f.test(s[first_reject(s, f)]),
        forall|i: int| 0 <= i < first_reject(s, f) ==> f.test(s[i]),
{
    let q = |x: T| !f.test(x);
    lemma_index_where(s, q);
    assert forall|i: int| 0 <= i < first_reject(s, f) implies f.test(s[i]) by {
        assert(!q(s[i]));
    }
}

/// The characterisation of [`first_accept`]: it lies within bounds, the
/// items before it are all rejected, and it points at an accepted item
/// unless every item is rejected.
pub proof fn lemma_first_accept<T, F: Predicate<T>>(s: Seq<T>, f: F)
    ensures
        0 <= first_accept(s, f) <= s.len(),
        first_accept(s, f) < s.len() ==> f.test(s[first_accept(s, f)]),
        forall|i: int| 0 <= i < first_accept(s, f) ==> !f.test(s[i]),
{
    let q = |x: T| f.test(x);
    lemma_index_where(s, q);
    assert forall|i: int| 0 <= i < first_accept(s, f) implies !f.test(s[i]) by {
        assert(!q(s[i]));
    }
}

/// A predicate over items: a callable object returning a boolean.
///
/// `call` may update internal state, but the predicate's meaning
/// ([`test`](Self::test)) is the same before and after every call.
pub trait Predicate<T>: Sized {
    /// The meaning of the predicate: what `call` returns on each item.
    spec fn test(&self, t: T) -> bool;

    /// Applies the predicate to one item.
    fn call(&mut self, t: &T) -> (r: bool)
        ensures
            r == old(self).test(*t),
            forall|x: T| final(self).test(x) == old(self).test(x),
    ;
}

/// A transform from items to owned values: a callable object.
///
/// `call` may update internal state, but the transform's meaning
/// ([`apply`](Self::apply)) is the same before and after every call.
pub trait Transform<T, B>: Sized {
    /// The meaning of the transform: what `call` returns on each item.
    spec fn apply(&self, t: T) -> B;

    /// Applies the transform to one item.
    fn call(&mut self, t: &T) -> (r: B)
        ensures
            r == old(self).apply(*t),
            forall|x: T| final(self).apply(x) == old(self).apply(x),
    ;
}

/// A transform from items to references into those items: a callable object
/// without mutable state, so that repeated `get` calls agree.
pub trait RefTransform<T>: Sized {
    /// The type the returned reference points at.
    type Out;

    /// The meaning of the transform: the value the returned reference holds.
    spec fn apply(&self, t: T) -> Self::Out;

    /// Applies the transform to one item, returning a reference into it.
    fn call<'a>(&self, t: &'a T) -> (r: &'a Self::Out)
        ensures
            *r == self.apply(*t),
    ;
}

/// Accepts even numbers.
pub struct IsEven;

impl Predicate<u32> for IsEven {
    open spec fn test(&self, t: u32) -> bool {
        t % 2 == 0
    }

    fn call(&mut self, t: &u32) -> (r: bool) {
        *t % 2 == 0
    }
}

/// Accepts numbers strictly below a bound.
pub struct BelowBound {
    /// The exclusive upper bound.
    pub bound: u32,
}

impl Predicate<u32> for BelowBound {
    open spec fn test(&self, t: u32) -> bool {
        t < self.bound
    }

    fn call(&mut self, t: &u32) -> (r: bool) {
        *t < self.bound
    }
}

/// Doubles each number, and counts how often it was called.
///
/// The count saturates, so it stays exact as long as it is below `u64::MAX`.
pub struct TallyDouble {
    /// How many times `call` has run.
    pub calls: u64,
}

impl Transform<u32, u64> for TallyDouble {
    open spec fn apply(&self, t: u32) -> u64 {
        (2 * t) as u64
    }

    fn call(&mut self, t: &u32) -> (r: u64) {
        if self.calls < u64::MAX {
            self.calls = self.calls + 1;
        }
        2 * (*t as u64)
    }
}

/// Projects a pair onto its first component.
pub struct PairFirst;

impl RefTransform<(u32, u32)> for PairFirst {
    type Out = u32;

    open spec fn apply(&self, t: (u32, u32)) -> u32 {
        t.0
    }

    fn call<'a>(&self, t: &'a (u32, u32)) -> (r: &'a u32) {
        &t.0
    }
}

} // verus!
