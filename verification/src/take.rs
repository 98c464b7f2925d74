//! The [`Take`] and [`TakeWhile`] adaptors: stop after initial elements.

use vstd::prelude::*;
use crate::apply::Predicate;
use crate::seqs::{index_where, lemma_index_where, lemma_index_where_congruent, lemma_index_where_step};
use crate::stream::{FallibleStreamingIterator, get_matches};

verus! {

/// An iterator which stops its source after a number of initial elements.
///
/// `get` is guarded by the done flag: it forwards the source's element only
/// once the count has run out, and shows nothing while the count is still
/// running down.  The inherent [`advance`](Take::advance) and
/// [`get`](Take::get) below carry the exact field-level contract of that
/// behaviour, over every state.
///
/// The uniform protocol contract, however, cannot describe the guarded
/// `get` in full: when the count runs out while the source still shows an
/// element, that element becomes current without ever having been among the
/// elements still to come, and stays current under every later advance —
/// a stream no finite model of remaining elements can express.  The
/// trait-level model therefore covers the states where that never happens:
/// the count outlasts the source's elements, and the source shows no
/// element once the count is spent.  There the adaptor's own stream is
/// empty, which is what the guard makes observable.
pub struct Take<I> {
    /// The source being cut short.
    pub it: I,
    /// How many advances still drive the source.
    pub n: usize,
    /// Whether the count has run out.
    pub done: bool,
}

impl<I: FallibleStreamingIterator> Take<I> {
    /// Advances the iterator to the next position.
    ///
    /// This is the behaviour of the adaptor on every state, stated over its
    /// fields: while the count is positive, one advance of the source, and
    /// on its success the count goes down by one (on its error the count
    /// and flag are untouched and the error is returned); once the count is
    /// zero, the done flag is set and the source is not driven at all.
    pub fn advance(&mut self) -> (r: Result<(), I::Error>)
        requires
            old(self).it.wf(),
        ensures
            final(self).it.wf(),
            old(self).n > 0 && old(self).it.rem().len() > 0 ==> {
                &&& r is Ok
                &&& final(self).n == old(self).n - 1
                &&& final(self).done == old(self).done
                &&& final(self).it.cur() == Some(old(self).it.rem()[0])
                &&& final(self).it.rem() == old(self).it.rem().drop_first()
                &&& final(self).it.fail() == old(self).it.fail()
                &&& final(self).it.fused() == old(self).it.fused()
            },
            old(self).n > 0 && old(self).it.rem().len() == 0 && old(self).it.fail() is None ==> {
                &&& r is Ok
                &&& final(self).n == old(self).n - 1
                &&& final(self).done == old(self).done
                &&& final(self).it.cur() is None
                &&& final(self).it.rem() == Seq::<I::Item>::empty()
                &&& (old(self).it.fused() ==> final(self).it.fail() is None
                    && final(self).it.fused())
            },
            old(self).n > 0 && old(self).it.rem().len() == 0 && old(self).it.fail() is Some ==> {
                &&& r == Result::<(), I::Error>::Err(old(self).it.fail()->0)
                &&& final(self).n == old(self).n
                &&& final(self).done == old(self).done
                &&& final(self).it.cur() is None
                &&& final(self).it.rem() == Seq::<I::Item>::empty()
                &&& (old(self).it.fused() ==> final(self).it.fail() is None
                    && final(self).it.fused())
            },
            old(self).n == 0 ==> {
                &&& r is Ok
                &&& final(self).n == 0
                &&& final(self).done
                &&& final(self).it == old(self).it
            },
    {
        if self.n != 0 {
            let step = self.it.advance();
            match step {
                Ok(()) => {}
                Err(e) => {
                    return Err(e);
                }
            }
            self.n = self.n - 1;
        } else {
            self.done = true;
        }
        Ok(())
    }

    /// Returns the current element.
    ///
    /// This is the guard of the done flag on every state, stated over the
    /// fields: once the flag is set the source's current element is
    /// forwarded unchanged, and while it is not set nothing is shown.
    pub fn get(&self) -> (r: Option<&I::Item>)
        requires
            self.it.wf(),
        ensures
            self.done ==> get_matches(r, self.it.cur()),
            !self.done ==> r is None,
    {
        if self.done {
            self.it.get()
        } else {
            None
        }
    }
}

impl<I: FallibleStreamingIterator> FallibleStreamingIterator for Take<I> {
    type Item = I::Item;

    type Error = I::Error;

    open spec fn wf(&self) -> bool {
        &&& self.it.wf()
        &&& self.done ==> self.n == 0 && self.it.cur() is None
        &&& (!self.done && self.n > 0) ==> self.n > self.it.rem().len()
        &&& (!self.done && self.n == 0) ==> self.it.cur() is None
    }

    open spec fn cur(&self) -> Option<I::Item> {
        if self.done {
            self.it.cur()
        } else {
            None
        }
    }

    open spec fn rem(&self) -> Seq<I::Item> {
        Seq::empty()
    }

    open spec fn fail(&self) -> Option<I::Error> {
        if !self.done && self.n > 0 && self.it.rem().len() == 0 {
            self.it.fail()
        } else {
            None
        }
    }

    open spec fn fused(&self) -> bool {
        if !self.done && self.n > 0 {
            self.it.fused() && (self.it.fail() is None || self.it.rem().len() == 0)
        } else {
            true
        }
    }

    open spec fn hint(&self) -> (usize, Option<usize>) {
        if self.done {
            (0, Some(0))
        } else {
            let h = self.it.hint();
            (
                if h.0 >= self.n { (h.0 - self.n) as usize } else { 0 },
                match h.1 {
                    Some(u) => Some(if u >= self.n { (u - self.n) as usize } else { 0 }),
                    None => None,
                },
            )
        }
    }

    fn advance(&mut self) -> (r: Result<(), I::Error>) {
        Take::advance(self)
    }

    fn get(&self) -> (r: Option<&I::Item>) {
        Take::get(self)
    }

    fn size_hint(&self) -> (r: (usize, Option<usize>)) {
        if self.done {
            (0, Some(0))
        } else {
            let h = self.it.size_hint();
            (
                if h.0 >= self.n { h.0 - self.n } else { 0 },
                match h.1 {
                    Some(u) => Some(if u >= self.n { u - self.n } else { 0 }),
                    None => None,
                },
            )
        }
    }
}

/// An iterator which yields the longest initial run of source elements
/// matching a predicate, and stops at the first element that does not match
/// (consuming it from the source without showing it).
pub struct TakeWhile<I, F> {
    /// The source being cut short.
    pub it: I,
    /// The predicate the yielded run matches.
    pub f: F,
    /// Whether a rejected element has closed the run.
    pub done: bool,
}

impl<I: FallibleStreamingIterator, F: Predicate<I::Item>> FallibleStreamingIterator for TakeWhile<
    I,
    F,
> {
    type Item = I::Item;

    type Error = I::Error;

    open spec fn wf(&self) -> bool {
        self.it.wf()
    }

    open spec fn cur(&self) -> Option<I::Item> {
        if self.done {
            None
        } else {
            self.it.cur()
        }
    }

    open spec fn rem(&self) -> Seq<I::Item> {
        if self.done {
            Seq::empty()
        } else {
            self.it.rem().take(index_where(self.it.rem(), |x: I::Item| !self.f.test(x)))
        }
    }

    open spec fn fail(&self) -> Option<I::Error> {
        if self.done {
            if self.it.rem().len() > 0 {
                None
            } else {
                self.it.fail()
            }
        } else {
            if index_where(self.it.rem(), |x: I::Item| !self.f.test(x)) == self.it.rem().len() {
                self.it.fail()
            } else {
                None
            }
        }
    }

    open spec fn fused(&self) -> bool {
        &&& self.it.fused()
        &&& (self.it.fail() is None || (!self.done && index_where(
            self.it.rem(),
            |x: I::Item| !self.f.test(x),
        ) == self.it.rem().len()))
    }

    open spec fn hint(&self) -> (usize, Option<usize>) {
        if self.done {
            (0, Some(0))
        } else {
            (0, self.it.hint().1)
        }
    }

    fn advance(&mut self) -> (r: Result<(), I::Error>) {
        let ghost pre = *self;
        let ghost q = |x: I::Item| !old(self).f.test(x);
        let step = self.it.next();
        match step {
            Ok(Some(v)) => {
                proof {
                    lemma_index_where(pre.it.rem(), q);
                }
                if !self.f.call(v) {
                    self.done = true;
                }
                proof {
                    lemma_index_where_congruent(
                        self.it.rem(),
                        |x: I::Item| !self.f.test(x),
                        q,
                    );
                    if !q(pre.it.rem()[0]) {
                        lemma_index_where_step(pre.it.rem(), q);
                        let idx = index_where(pre.it.rem(), q);
                        assert(pre.it.rem().take(idx).drop_first() =~= pre.it.rem().drop_first().take(
                            idx - 1,
                        ));
                        assert(pre.it.rem().take(idx)[0] == pre.it.rem()[0]);
                    }
                }
                Ok(())
            }
            Ok(None) => {
                Ok(())
            }
            Err(e) => {
                Err(e)
            }
        }
    }

    fn get(&self) -> (r: Option<&I::Item>) {
        if self.done {
            None
        } else {
            self.it.get()
        }
    }

    fn size_hint(&self) -> (r: (usize, Option<usize>)) {
        if self.done {
            (0, Some(0))
        } else {
            (0, self.it.size_hint().1)
        }
    }
}

} // verus!
