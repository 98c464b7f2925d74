//! The core protocol: `advance`, `get`, `next`, and the model they obey,
//! together with the consuming query operations and the adaptor
//! constructors.

use vstd::prelude::*;
use crate::apply::{Predicate, RefTransform, Transform, first_accept, first_reject, lemma_first_accept, lemma_first_reject};
use crate::filter::Filter;
use crate::fuse::{Fuse, FuseState};
use crate::mapped::{MapRef, Mapped};
use crate::skip::{Skip, SkipWhile};
use crate::take::{Take, TakeWhile};

verus! {

/// Relates the value `get` hands out to the model's current element: the
/// reference is `Some` exactly when the model holds an element, and then it
/// points at that element.
pub open spec fn get_matches<T>(r: Option<&T>, c: Option<T>) -> bool {
    match r {
        Some(v) => c == Some(*v),
        None => c is None,
    }
}

/// A fallible, streaming iterator.
///
/// Iterators start just before the first element: `advance` must be called
/// before the first `get`.  The model is given by four spec functions:
/// [`cur`](Self::cur) is the element `get` shows, [`rem`](Self::rem) the
/// elements still to come, [`fail`](Self::fail) the error that follows them,
/// if any, and [`fused`](Self::fused) says whether exhaustion and failure,
/// once reported, are final.  The contracts speak only of states satisfying
/// [`wf`](Self::wf), the implementer's well-formedness condition.
///
/// The transition contract of `advance` (and of `next`) has three cases:
/// with elements remaining, the first of them becomes current; at clean
/// exhaustion the call succeeds, and the iterator shows no element and keeps
/// none; with a pending failure the call surfaces that error and leaves no
/// element behind.  A [`fused`](Self::fused) iterator additionally stays
/// cleanly exhausted forever once its elements are gone.
pub trait FallibleStreamingIterator: Sized {
    /// The type being iterated over.
    type Item;

    /// The error type of iteration.
    type Error;

    /// Well-formedness of the iterator state.
    spec fn wf(&self) -> bool;

    /// The current element, the one `get` shows.
    spec fn cur(&self) -> Option<Self::Item>;

    /// The elements still to come, in order.
    spec fn rem(&self) -> Seq<Self::Item>;

    /// The outcome after the last element: `Some(e)` if the advance past the
    /// end reports the error `e`, `None` if it reports clean exhaustion.
    spec fn fail(&self) -> Option<Self::Error>;

    /// Whether exhaustion and failure are terminal: once reported, every
    /// later `advance` succeeds and shows no element.
    spec fn fused(&self) -> bool;

    /// The advisory bounds `size_hint` returns.
    spec fn hint(&self) -> (usize, Option<usize>);

    /// Advances the iterator to the next position.
    ///
    /// Iterators start just before the first item, so this method should be
    /// called before `get` when iterating.
    fn advance(&mut self) -> (r: Result<(), Self::Error>)
        requires
            old(self).wf(),
        ensures
            final(self).wf(),
            old(self).rem().len() > 0 ==> {
                &&& r is Ok
                &&& final(self).cur() == Some(old(self).rem()[0])
                &&& final(self).rem() == old(self).rem().drop_first()
                &&& final(self).fail() == old(self).fail()
                &&& final(self).fused() == old(self).fused()
            },
            old(self).rem().len() == 0 && old(self).fail() is None ==> {
                &&& r is Ok
                &&& final(self).cur() is None
                &&& final(self).rem() == Seq::<Self::Item>::empty()
                &&& (old(self).fused() ==> final(self).fail() is None && final(self).fused())
            },
            old(self).rem().len() == 0 && old(self).fail() is Some ==> {
                &&& r == Result::<(), Self::Error>::Err(old(self).fail()->0)
                &&& final(self).cur() is None
                &&& final(self).rem() == Seq::<Self::Item>::empty()
                &&& (old(self).fused() ==> final(self).fail() is None && final(self).fused())
            },
    ;

    /// Returns the current element.
    ///
    /// Before the first call to `advance` the model holds no current element,
    /// and this method returns `None` accordingly.
    fn get(&self) -> (r: Option<&Self::Item>)
        requires
            self.wf(),
        ensures
            get_matches(r, self.cur()),
    ;

    /// Advances the iterator, returning the next element.
    ///
    /// The default implementation simply calls `advance` followed by `get`.
    fn next(&mut self) -> (r: Result<Option<&Self::Item>, Self::Error>)
        requires
            old(self).wf(),
        ensures
            final(self).wf(),
            old(self).rem().len() > 0 ==> {
                &&& r matches Ok(Some(v)) && *v == old(self).rem()[0]
                &&& final(self).cur() == Some(old(self).rem()[0])
                &&& final(self).rem() == old(self).rem().drop_first()
                &&& final(self).fail() == old(self).fail()
                &&& final(self).fused() == old(self).fused()
            },
            old(self).rem().len() == 0 && old(self).fail() is None ==> {
                &&& r matches Ok(None)
                &&& final(self).cur() is None
                &&& final(self).rem() == Seq::<Self::Item>::empty()
                &&& (old(self).fused() ==> final(self).fail() is None && final(self).fused())
            },
            old(self).rem().len() == 0 && old(self).fail() is Some ==> {
                &&& r matches Err(e) && e == old(self).fail()->0
                &&& final(self).cur() is None
                &&& final(self).rem() == Seq::<Self::Item>::empty()
                &&& (old(self).fused() ==> final(self).fail() is None && final(self).fused())
            },
    {
        match self.advance() {
            Ok(()) => Ok(self.get()),
            Err(e) => Err(e),
        }
    }

    /// Returns bounds on the number of remaining elements in the iterator.
    fn size_hint(&self) -> (r: (usize, Option<usize>))
        ensures
            r == self.hint(),
    ;

    /// Determines if all elements of the iterator satisfy a predicate.
    ///
    /// The iterator is driven up to the first element the predicate rejects:
    /// if there is one, the result is `false` and that element stays current;
    /// if every element passes, the iterator's own outcome decides between
    /// `true` and its error.
    #[verifier::loop_isolation(false)]
    fn all<F: Predicate<Self::Item>>(&mut self, f: &mut F) -> (r: Result<bool, Self::Error>)
        requires
            old(self).wf(),
        ensures
            final(self).wf(),
            forall|x: Self::Item| #[trigger] final(f).test(x) == old(f).test(x),
            ({
                let s = old(self).rem();
                let j = first_reject(s, *old(f));
                &&& j < s.len() ==> {
                    &&& r == Ok::<bool, Self::Error>(false)
                    &&& final(self).cur() == Some(s[j])
                    &&& final(self).rem() == s.skip(j + 1)
                    &&& final(self).fail() == old(self).fail()
                }
                &&& (j == s.len() && old(self).fail() is None) ==> {
                    &&& r == Ok::<bool, Self::Error>(true)
                    &&& final(self).cur() is None
                    &&& final(self).rem() == Seq::<Self::Item>::empty()
                }
                &&& (j == s.len() && old(self).fail() is Some) ==> {
                    &&& r == Result::<bool, Self::Error>::Err(old(self).fail()->0)
                    &&& final(self).cur() is None
                    &&& final(self).rem() == Seq::<Self::Item>::empty()
                }
            }),
    {
        let ghost s = old(self).rem();
        let ghost mut j: int = 0;
        loop
            invariant
                self.wf(),
                0 <= j <= s.len(),
                self.rem() == s.skip(j),
                self.fail() == old(self).fail(),
                forall|x: Self::Item| #[trigger] f.test(x) == old(f).test(x),
                forall|i: int| 0 <= i < j ==> old(f).test(s[i]),
            decreases s.len() - j,
        {
            let step = self.next();
            match step {
                Ok(Some(v)) => {
                    proof {
                        assert(s.skip(j)[0] == s[j]);
                        assert(s.skip(j).drop_first() =~= s.skip(j + 1));
                    }
                    if !f.call(v) {
                        proof {
                            lemma_first_reject(s, *old(f));
                        }
                        return Ok(false);
                    }
                    proof {
                        j = j + 1;
                    }
                }
                Ok(None) => {
                    proof {
                        lemma_first_reject(s, *old(f));
                    }
                    return Ok(true);
                }
                Err(e) => {
                    proof {
                        lemma_first_reject(s, *old(f));
                    }
                    return Err(e);
                }
            }
        }
    }

    /// Determines if any element of the iterator satisfies a predicate.
    ///
    /// The complement of [`all`](Self::all) over the negated predicate: the
    /// iterator is driven up to the first element the predicate accepts.
    #[verifier::loop_isolation(false)]
    fn any<F: Predicate<Self::Item>>(&mut self, f: &mut F) -> (r: Result<bool, Self::Error>)
        requires
            old(self).wf(),
        ensures
            final(self).wf(),
            forall|x: Self::Item| #[trigger] final(f).test(x) == old(f).test(x),
            ({
                let s = old(self).rem();
                let j = first_accept(s, *old(f));
                &&& j < s.len() ==> {
                    &&& r == Ok::<bool, Self::Error>(true)
                    &&& final(self).cur() == Some(s[j])
                    &&& final(self).rem() == s.skip(j + 1)
                    &&& final(self).fail() == old(self).fail()
                }
                &&& (j == s.len() && old(self).fail() is None) ==> {
                    &&& r == Ok::<bool, Self::Error>(false)
                    &&& final(self).cur() is None
                    &&& final(self).rem() == Seq::<Self::Item>::empty()
                }
                &&& (j == s.len() && old(self).fail() is Some) ==> {
                    &&& r == Result::<bool, Self::Error>::Err(old(self).fail()->0)
                    &&& final(self).cur() is None
                    &&& final(self).rem() == Seq::<Self::Item>::empty()
                }
            }),
    {
        let ghost s = old(self).rem();
        let ghost mut j: int = 0;
        loop
            invariant
                self.wf(),
                0 <= j <= s.len(),
                self.rem() == s.skip(j),
                self.fail() == old(self).fail(),
                forall|x: Self::Item| #[trigger] f.test(x) == old(f).test(x),
                forall|i: int| 0 <= i < j ==> !old(f).test(s[i]),
            decreases s.len() - j,
        {
            let step = self.next();
            match step {
                Ok(Some(v)) => {
                    proof {
                        assert(s.skip(j)[0] == s[j]);
                        assert(s.skip(j).drop_first() =~= s.skip(j + 1));
                    }
                    if f.call(v) {
                        proof {
                            lemma_first_accept(s, *old(f));
                        }
                        return Ok(true);
                    }
                    proof {
                        j = j + 1;
                    }
                }
                Ok(None) => {
                    proof {
                        lemma_first_accept(s, *old(f));
                    }
                    return Ok(false);
                }
                Err(e) => {
                    proof {
                        lemma_first_accept(s, *old(f));
                    }
                    return Err(e);
                }
            }
        }
    }

    /// Returns the number of remaining elements in the iterator.
    ///
    /// The iterator is consumed; an error cuts the count short and is
    /// returned instead.
    #[verifier::loop_isolation(false)]
    fn count(self) -> (r: Result<usize, Self::Error>)
        requires
            self.wf(),
            self.rem().len() <= usize::MAX,
        ensures
            self.fail() is None ==> r == Ok::<usize, Self::Error>(self.rem().len() as usize),
            self.fail() is Some ==> r == Result::<usize, Self::Error>::Err(self.fail()->0),
    {
        let ghost s = self.rem();
        let ghost fail0 = self.fail();
        let mut it = self;
        let mut count: usize = 0;
        loop
            invariant
                it.wf(),
                count <= s.len(),
                it.rem() == s.skip(count as int),
                it.fail() == fail0,
                s.len() <= usize::MAX,
            decreases s.len() - count,
        {
            let step = it.next();
            match step {
                Ok(Some(_)) => {
                    proof {
                        assert(s.skip(count as int).drop_first() =~= s.skip(count + 1));
                    }
                    count = count + 1;
                }
                Ok(None) => {
                    return Ok(count);
                }
                Err(e) => {
                    return Err(e);
                }
            }
        }
    }

    /// Returns the first element of the iterator which satisfies a
    /// predicate.
    ///
    /// Elements up to the first match are consumed; the match stays current
    /// and is returned.  Exhaustion gives `Ok(None)`, and an error met
    /// before any match is returned instead.
    #[verifier::loop_isolation(false)]
    fn find<F: Predicate<Self::Item>>(&mut self, f: &mut F) -> (r: Result<
        Option<&Self::Item>,
        Self::Error,
    >)
        requires
            old(self).wf(),
        ensures
            final(self).wf(),
            forall|x: Self::Item| #[trigger] final(f).test(x) == old(f).test(x),
            ({
                let s = old(self).rem();
                let j = first_accept(s, *old(f));
                &&& j < s.len() ==> {
                    &&& (r matches Ok(Some(v)) && *v == s[j])
                    &&& final(self).cur() == Some(s[j])
                    &&& final(self).rem() == s.skip(j + 1)
                    &&& final(self).fail() == old(self).fail()
                }
                &&& (j == s.len() && old(self).fail() is None) ==> {
                    &&& r matches Ok(None)
                    &&& final(self).cur() is None
                    &&& final(self).rem() == Seq::<Self::Item>::empty()
                }
                &&& (j == s.len() && old(self).fail() is Some) ==> {
                    &&& (r matches Err(e) && e == old(self).fail()->0)
                    &&& final(self).cur() is None
                    &&& final(self).rem() == Seq::<Self::Item>::empty()
                }
            }),
    {
        let ghost s = old(self).rem();
        let ghost mut j: int = 0;
        loop
            invariant
                self.wf(),
                0 <= j <= s.len(),
                self.rem() == s.skip(j),
                self.fail() == old(self).fail(),
                forall|x: Self::Item| #[trigger] f.test(x) == old(f).test(x),
                forall|i: int| 0 <= i < j ==> !old(f).test(s[i]),
            decreases s.len() - j,
        {
            let step = self.advance();
            match step {
                Ok(()) => {}
                Err(e) => {
                    proof {
                        lemma_first_accept(s, *old(f));
                    }
                    return Err(e);
                }
            }
            proof {
                if s.skip(j).len() > 0 {
                    assert(s.skip(j)[0] == s[j]);
                    assert(s.skip(j).drop_first() =~= s.skip(j + 1));
                }
            }
            match self.get() {
                Some(v) => {
                    if f.call(v) {
                        proof {
                            lemma_first_accept(s, *old(f));
                        }
                        return Ok(self.get());
                    }
                    proof {
                        j = j + 1;
                    }
                }
                None => {
                    proof {
                        lemma_first_accept(s, *old(f));
                    }
                    return Ok(self.get());
                }
            }
        }
    }

    /// Returns the `nth` element of the iterator.
    ///
    /// The first `n` elements and the returned one are consumed.  If the
    /// iterator ends early the result is `Ok(None)`; an error met on the way
    /// is returned instead.
    #[verifier::loop_isolation(false)]
    fn nth(&mut self, n: usize) -> (r: Result<Option<&Self::Item>, Self::Error>)
        requires
            old(self).wf(),
        ensures
            final(self).wf(),
            ({
                let s = old(self).rem();
                &&& s.len() > n ==> {
                    &&& (r matches Ok(Some(v)) && *v == s[n as int])
                    &&& final(self).cur() == Some(s[n as int])
                    &&& final(self).rem() == s.skip(n + 1)
                    &&& final(self).fail() == old(self).fail()
                }
                &&& (s.len() <= n && old(self).fail() is None) ==> {
                    &&& r matches Ok(None)
                    &&& final(self).cur() is None
                    &&& final(self).rem() == Seq::<Self::Item>::empty()
                }
                &&& (s.len() <= n && old(self).fail() is Some) ==> {
                    &&& (r matches Err(e) && e == old(self).fail()->0)
                    &&& final(self).cur() is None
                    &&& final(self).rem() == Seq::<Self::Item>::empty()
                }
            }),
    {
        let ghost s = old(self).rem();
        let mut i: usize = 0;
        while i < n
            invariant
                i <= n,
                self.wf(),
                i <= s.len(),
                self.rem() == s.skip(i as int),
                self.fail() == old(self).fail(),
            decreases n - i,
        {
            let step = self.advance();
            match step {
                Ok(()) => {}
                Err(e) => {
                    return Err(e);
                }
            }
            proof {
                if s.skip(i as int).len() > 0 {
                    assert(s.skip(i as int).drop_first() =~= s.skip(i + 1));
                }
            }
            match self.get() {
                Some(_) => {}
                None => {
                    return Ok(None);
                }
            }
            i = i + 1;
        }
        proof {
            if s.skip(n as int).len() > 0 {
                assert(s.skip(n as int)[0] == s[n as int]);
                assert(s.skip(n as int).drop_first() =~= s.skip(n + 1));
            }
        }
        self.next()
    }

    /// Returns the position of the first element matching a predicate, or
    /// `Ok(None)` if no element matches; elements up to and including the
    /// match are consumed, and an error met on the way is returned instead.
    #[verifier::loop_isolation(false)]
    fn position<F: Predicate<Self::Item>>(&mut self, f: &mut F) -> (r: Result<
        Option<usize>,
        Self::Error,
    >)
        requires
            old(self).wf(),
            old(self).rem().len() <= usize::MAX,
        ensures
            final(self).wf(),
            forall|x: Self::Item| #[trigger] final(f).test(x) == old(f).test(x),
            ({
                let s = old(self).rem();
                let j = first_accept(s, *old(f));
                &&& j < s.len() ==> {
                    &&& r == Ok::<Option<usize>, Self::Error>(Some(j as usize))
                    &&& final(self).cur() == Some(s[j])
                    &&& final(self).rem() == s.skip(j + 1)
                    &&& final(self).fail() == old(self).fail()
                }
                &&& (j == s.len() && old(self).fail() is None) ==> {
                    &&& r == Ok::<Option<usize>, Self::Error>(None)
                    &&& final(self).cur() is None
                    &&& final(self).rem() == Seq::<Self::Item>::empty()
                }
                &&& (j == s.len() && old(self).fail() is Some) ==> {
                    &&& r == Result::<Option<usize>, Self::Error>::Err(old(self).fail()->0)
                    &&& final(self).cur() is None
                    &&& final(self).rem() == Seq::<Self::Item>::empty()
                }
            }),
    {
        let ghost s = old(self).rem();
        let mut pos: usize = 0;
        loop
            invariant
                self.wf(),
                pos <= s.len(),
                s.len() <= usize::MAX,
                self.rem() == s.skip(pos as int),
                self.fail() == old(self).fail(),
                forall|x: Self::Item| #[trigger] f.test(x) == old(f).test(x),
                forall|i: int| 0 <= i < pos ==> !old(f).test(s[i]),
            decreases s.len() - pos,
        {
            let step = self.next();
            match step {
                Ok(Some(v)) => {
                    proof {
                        assert(s.skip(pos as int)[0] == s[pos as int]);
                        assert(s.skip(pos as int).drop_first() =~= s.skip(pos + 1));
                    }
                    if f.call(v) {
                        proof {
                            lemma_first_accept(s, *old(f));
                        }
                        return Ok(Some(pos));
                    }
                    pos = pos + 1;
                }
                Ok(None) => {
                    proof {
                        lemma_first_accept(s, *old(f));
                    }
                    return Ok(None);
                }
                Err(e) => {
                    proof {
                        lemma_first_accept(s, *old(f));
                    }
                    return Err(e);
                }
            }
        }
    }

    /// Returns an iterator which filters elements by a predicate.
    fn filter<F: Predicate<Self::Item>>(self, f: F) -> (r: Filter<Self, F>)
        ensures
            r.it == self,
            r.f == f,
    {
        Filter { it: self, f }
    }

    /// Returns an iterator which is well-behaved at the beginning and end of
    /// iteration.
    fn fuse(self) -> (r: Fuse<Self>)
        ensures
            r.it == self,
            r.state is Start,
    {
        Fuse { it: self, state: FuseState::Start }
    }

    /// Returns an iterator which applies a transform to elements.
    fn map<F: Transform<Self::Item, B>, B>(self, f: F) -> (r: Mapped<Self, F, B>)
        ensures
            r.it == self,
            r.f == f,
            r.value is None,
    {
        Mapped { it: self, f, value: None }
    }

    /// Returns an iterator which applies a transform to elements.
    ///
    /// Unlike `map`, the transform provided to this method returns a
    /// reference into the original value.
    fn map_ref<F: RefTransform<Self::Item>>(self, f: F) -> (r: MapRef<Self, F>)
        ensures
            r.it == self,
            r.f == f,
    {
        MapRef { it: self, f }
    }

    /// Returns an iterator which skips the first `n` elements.
    fn skip(self, n: usize) -> (r: Skip<Self>)
        ensures
            r.it == self,
            r.n == n,
    {
        Skip { it: self, n }
    }

    /// Returns an iterator which skips the first sequence of elements
    /// matching a predicate.
    fn skip_while<F: Predicate<Self::Item>>(self, f: F) -> (r: SkipWhile<Self, F>)
        ensures
            r.it == self,
            r.f == f,
            !r.done,
    {
        SkipWhile { it: self, f, done: false }
    }

    /// Returns an iterator which only returns the first `n` elements.
    fn take(self, n: usize) -> (r: Take<Self>)
        ensures
            r.it == self,
            r.n == n,
            !r.done,
    {
        Take { it: self, n, done: false }
    }

    /// Returns an iterator which only returns the first sequence of elements
    /// matching a predicate.
    fn take_while<F: Predicate<Self::Item>>(self, f: F) -> (r: TakeWhile<Self, F>)
        ensures
            r.it == self,
            r.f == f,
            !r.done,
    {
        TakeWhile { it: self, f, done: false }
    }
}

} // verus!
