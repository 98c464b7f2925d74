//! Laws of the adaptor family, stated and proved over the models.

use vstd::prelude::*;
use crate::apply::{Predicate, RefTransform, Transform};
use crate::filter::Filter;
use crate::fuse::{Fuse, FuseState};
use crate::mapped::{MapRef, Mapped};
use crate::skip::{Skip, SkipWhile};
use crate::stream::FallibleStreamingIterator;
use crate::take::{Take, TakeWhile};

verus! {

/// Freshly built adaptors do not treat "not yet advanced" as "has an
/// element": over a source that shows no current element, each adaptor in
/// its starting state shows none either, so an element can only be observed
/// after the adaptor has driven its source through `advance`.
pub proof fn lemma_fresh_adaptor_shows_nothing<
    I: FallibleStreamingIterator,
    P: Predicate<I::Item>,
    F: Transform<I::Item, B>,
    G: RefTransform<I::Item>,
    B,
>(it: I, p: P, f: F, g: G, n: usize)
    requires
        it.cur() is None,
    ensures
        (Filter { it, f: p }).cur() is None,
        (Fuse { it, state: FuseState::Start }).cur() is None,
        (Mapped { it, f, value: None }).cur() is None,
        (MapRef { it, f: g }).cur() is None,
        (Skip { it, n }).cur() is None,
        (SkipWhile { it, f: p, done: false }).cur() is None,
        (Take { it, n, done: false }).cur() is None,
        (TakeWhile { it, f: p, done: false }).cur() is None,
{
}

/// A fused iterator never treats its start as an element either, whatever
/// its source currently shows.
pub proof fn lemma_fuse_guards_start<I: FallibleStreamingIterator>(it: I)
    ensures
        (Fuse { it, state: FuseState::Start }).cur() is None,
{
}

/// Exhaustion and failure of a fused iterator are terminal.
///
/// A [`Fuse`] is always [`fused`](FallibleStreamingIterator::fused), and in
/// its end state its model is drained for good: nothing is current, nothing
/// remains and no failure is pending.  With the protocol contract of
/// `advance` this gives the guarantee: once a fused iterator has reported
/// exhaustion — and it moves to the end state whenever it does, also on an
/// error — every later `next` succeeds with no element, without the source
/// being driven again.
pub proof fn lemma_fuse_terminal<I: FallibleStreamingIterator>(f: Fuse<I>)
    ensures
        f.fused(),
        f.state is End ==> f.cur() is None,
        f.state is End ==> f.rem() == Seq::<I::Item>::empty(),
        f.state is End ==> f.fail() is None,
{
}

/// Chained adaptors compose as the eager functions do: the elements still
/// to come from `source.filter(p).map(f)` are exactly the source's
/// remaining elements filtered through `p`'s meaning and then mapped
/// through `f`'s meaning, for every source and every choice of predicate
/// and transform.
pub proof fn lemma_filter_map_composition<
    I: FallibleStreamingIterator,
    P: Predicate<I::Item>,
    F: Transform<I::Item, B>,
    B,
>(m: Mapped<Filter<I, P>, F, B>)
    ensures
        m.rem() == m.it.it.rem().filter(|x: I::Item| m.it.f.test(x)).map_values(
            |x: I::Item| m.f.apply(x),
        ),
{
}

/// Cutting a filtered and mapped chain with `take` matches the eager
/// composition wherever the cut leaves nothing: with a count of zero, or a
/// filter that keeps nothing, both sides are empty.  On other inputs the
/// two sides differ, because [`Take`] gates `get` on its done flag and so
/// never shows an element through the chain; those inputs are left out.
pub proof fn lemma_filter_map_take_composition<
    I: FallibleStreamingIterator,
    P: Predicate<I::Item>,
    F: Transform<I::Item, B>,
    B,
>(t: Take<Mapped<Filter<I, P>, F, B>>)
    requires
        !t.done,
        t.n == 0 || t.it.it.it.rem().filter(|x: I::Item| t.it.it.f.test(x)).len() == 0,
    ensures
        ({
            let eager = t.it.it.it.rem().filter(|x: I::Item| t.it.it.f.test(x)).map_values(
                |x: I::Item| t.it.f.apply(x),
            );
            t.rem() == eager.take(if t.n <= eager.len() { t.n as int } else { eager.len() as int })
        }),
{
    let eager = t.it.it.it.rem().filter(|x: I::Item| t.it.it.f.test(x)).map_values(
        |x: I::Item| t.it.f.apply(x),
    );
    assert(eager.take(if t.n <= eager.len() { t.n as int } else { eager.len() as int })
        =~= Seq::<B>::empty());
}

} // verus!
