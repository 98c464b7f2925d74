//! Sequence helpers: the spec functions and lemmas the adaptor models are
//! stated and proved with.

use vstd::prelude::*;

verus! {

/// The index of the first element of `s` satisfying `p`, or `s.len()` if no
/// element does.
pub open spec fn index_where<T>(s: Seq<T>, p: spec_fn(T) -> bool) -> int
    decreases s.len(),
{
    if s.len() == 0 {
        0
    } else if p(s[0]) {
        0
    } else {
        1 + index_where(s.drop_first(), p)
    }
}

/// The characterisation of [`index_where`]: it lies within bounds, everything
/// before it fails `p`, and it points at a satisfying element unless there is
/// none.
pub proof fn lemma_index_where<T>(s: Seq<T>, p: spec_fn(T) -> bool)
    ensures
        0 <= index_where(s, p) <= s.len(),
        index_where(s, p) < s.len() ==> p(s[index_where(s, p)]),
        forall|i: int| 0 <= i < index_where(s, p) ==> !p(s[i]),
    decreases s.len(),
{
    if s.len() > 0 && !p(s[0]) {
        lemma_index_where(s.drop_first(), p);
        assert forall|i: int| 0 <= i < index_where(s, p) implies !p(s[i]) by {
            if i > 0 {
                assert(!p(s.drop_first()[i - 1]));
            }
        }
    }
}

/// Stepping [`index_where`] past a first element that does not satisfy `p`.
pub proof fn lemma_index_where_step<T>(s: Seq<T>, p: spec_fn(T) -> bool)
    requires
        s.len() > 0,
        !p(s[0]),
    ensures
        index_where(s, p) == 1 + index_where(s.drop_first(), p),
{
}

/// [`index_where`] computed through predicates of equal meaning is equal.
pub proof fn lemma_index_where_congruent<T>(s: Seq<T>, p: spec_fn(T) -> bool, q: spec_fn(T) -> bool)
    requires
        forall|x: T| #[trigger] p(x) == q(x),
    ensures
        index_where(s, p) == index_where(s, q),
    decreases s.len(),
{
    if s.len() > 0 {
        lemma_index_where_congruent(s.drop_first(), p, q);
    }
}

/// Filtering distributes over splitting off the head of a sequence.
pub proof fn lemma_filter_first<T>(s: Seq<T>, p: spec_fn(T) -> bool)
    requires
        s.len() > 0,
    ensures
        p(s[0]) ==> s.filter(p) == seq![s[0]] + s.drop_first().filter(p),
        !p(s[0]) ==> s.filter(p) == s.drop_first().filter(p),
{
    assert(s =~= seq![s[0]] + s.drop_first());
    s.drop_first().lemma_filter_prepend(s[0], p);
    if !p(s[0]) {
        assert(Seq::<T>::empty() + s.drop_first().filter(p) =~= s.drop_first().filter(p));
    }
}

/// Sequences filtered through predicates of equal meaning are equal.
pub proof fn lemma_filter_congruent<T>(s: Seq<T>, p: spec_fn(T) -> bool, q: spec_fn(T) -> bool)
    requires
        forall|x: T| #[trigger] p(x) == q(x),
    ensures
        s.filter(p) == s.filter(q),
    decreases s.len(),
{
    reveal(Seq::filter);
    if s.len() == 0 {
        assert(s.filter(p) =~= s.filter(q));
    } else {
        lemma_filter_congruent(s.drop_last(), p, q);
    }
}

/// Sequences mapped through transforms of equal meaning are equal.
pub proof fn lemma_map_values_congruent<T, B>(
    s: Seq<T>,
    f: spec_fn(T) -> B,
    g: spec_fn(T) -> B,
)
    requires
        forall|x: T| #[trigger] f(x) == g(x),
    ensures
        s.map_values(f) == s.map_values(g),
{
    assert(s.map_values(f) =~= s.map_values(g));
}

/// Mapping distributes over splitting off the head of a sequence.
pub proof fn lemma_map_values_first<T, B>(s: Seq<T>, f: spec_fn(T) -> B)
    requires
        s.len() > 0,
    ensures
        s.map_values(f) == seq![f(s[0])] + s.drop_first().map_values(f),
        s.map_values(f).drop_first() == s.drop_first().map_values(f),
        s.map_values(f)[0] == f(s[0]),
{
    assert(s.map_values(f) =~= seq![f(s[0])] + s.drop_first().map_values(f));
    assert(s.map_values(f).drop_first() =~= s.drop_first().map_values(f));
}

} // verus!
