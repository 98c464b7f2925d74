//! The [`Skip`] and [`SkipWhile`] adaptors: discard initial elements.

use vstd::prelude::*;
use crate::apply::Predicate;
use crate::seqs::{index_where, lemma_index_where, lemma_index_where_step};
use crate::stream::FallibleStreamingIterator;

verus! {

/// An iterator which skips a number of initial elements, then yields the
/// rest of its source unchanged.
pub struct Skip<I> {
    /// The source whose lead is discarded.
    pub it: I,
    /// How many elements are still to be discarded.
    pub n: usize,
}

impl<I: FallibleStreamingIterator> FallibleStreamingIterator for Skip<I> {
    type Item = I::Item;

    type Error = I::Error;

    open spec fn wf(&self) -> bool {
        self.it.wf()
    }

    open spec fn cur(&self) -> Option<I::Item> {
        self.it.cur()
    }

    open spec fn rem(&self) -> Seq<I::Item> {
        if self.n <= self.it.rem().len() {
            self.it.rem().skip(self.n as int)
        } else {
            Seq::empty()
        }
    }

    open spec fn fail(&self) -> Option<I::Error> {
        self.it.fail()
    }

    open spec fn fused(&self) -> bool {
        self.it.fused()
    }

    open spec fn hint(&self) -> (usize, Option<usize>) {
        let h = self.it.hint();
        (
            if h.0 >= self.n { (h.0 - self.n) as usize } else { 0 },
            match h.1 {
                Some(u) => Some(if u >= self.n { (u - self.n) as usize } else { 0 }),
                None => None,
            },
        )
    }

    fn advance(&mut self) -> (r: Result<(), I::Error>) {
        let mut i: usize = 0;
        while i < self.n
            invariant
                i <= self.n,
                self.n == old(self).n,
                self.it.wf(),
                self.it.fail() == old(self).it.fail(),
                self.it.fused() == old(self).it.fused(),
                i <= old(self).it.rem().len(),
                self.it.rem() == old(self).it.rem().skip(i as int),
            decreases self.n - i,
        {
            let ghost pre = self.it;
            let step = self.it.next();
            match step {
                Ok(Some(_)) => {
                    proof {
                        assert(old(self).it.rem().skip(i as int).drop_first() =~= old(
                            self,
                        ).it.rem().skip(i + 1));
                    }
                    i = i + 1;
                }
                Ok(None) => {
                    return Ok(());
                }
                Err(e) => {
                    return Err(e);
                }
            }
        }
        self.n = 0;
        let r = self.it.advance();
        proof {
            let s = old(self).it.rem().skip(old(self).n as int);
            if s.len() > 0 {
                assert(s.drop_first() =~= self.it.rem());
            } else {
                assert(self.it.rem().skip(0) =~= self.it.rem());
            }
        }
        r
    }

    fn get(&self) -> (r: Option<&I::Item>) {
        self.it.get()
    }

    fn size_hint(&self) -> (r: (usize, Option<usize>)) {
        let h = self.it.size_hint();
        (
            if h.0 >= self.n { h.0 - self.n } else { 0 },
            match h.1 {
                Some(u) => Some(if u >= self.n { u - self.n } else { 0 }),
                None => None,
            },
        )
    }
}

/// An iterator which skips the longest initial run of elements matching a
/// predicate, then yields the rest of its source unchanged.
pub struct SkipWhile<I, F> {
    /// The source whose lead is discarded.
    pub it: I,
    /// The predicate the discarded lead matches.
    pub f: F,
    /// Whether the lead has already been discarded.
    pub done: bool,
}

impl<I: FallibleStreamingIterator, F: Predicate<I::Item>> FallibleStreamingIterator for SkipWhile<
    I,
    F,
> {
    type Item = I::Item;

    type Error = I::Error;

    open spec fn wf(&self) -> bool {
        self.it.wf()
    }

    open spec fn cur(&self) -> Option<I::Item> {
        self.it.cur()
    }

    open spec fn rem(&self) -> Seq<I::Item> {
        if self.done {
            self.it.rem()
        } else {
            self.it.rem().skip(index_where(self.it.rem(), |x: I::Item| !self.f.test(x)))
        }
    }

    open spec fn fail(&self) -> Option<I::Error> {
        self.it.fail()
    }

    open spec fn fused(&self) -> bool {
        self.it.fused()
    }

    open spec fn hint(&self) -> (usize, Option<usize>) {
        if self.done {
            self.it.hint()
        } else {
            (0, self.it.hint().1)
        }
    }

    fn advance(&mut self) -> (r: Result<(), I::Error>) {
        if !self.done {
            self.done = true;
            loop
                invariant
                    self.done,
                    self.it.wf(),
                    forall|x: I::Item| #[trigger] self.f.test(x) == old(self).f.test(x),
                    self.it.fail() == old(self).it.fail(),
                    self.it.fused() == old(self).it.fused(),
                    self.it.rem().skip(
                        index_where(self.it.rem(), |x: I::Item| !old(self).f.test(x)),
                    ) == old(self).rem(),
                decreases self.it.rem().len(),
            {
                let ghost pre = self.it;
                let ghost q = |x: I::Item| !old(self).f.test(x);
                let step = self.it.next();
                match step {
                    Ok(Some(v)) => {
                        proof {
                            lemma_index_where(pre.rem(), q);
                        }
                        if !self.f.call(v) {
                            proof {
                                assert(index_where(pre.rem(), q) == 0);
                                assert(pre.rem().skip(0) =~= pre.rem());
                            }
                            return Ok(());
                        }
                        proof {
                            lemma_index_where_step(pre.rem(), q);
                            assert(pre.rem().skip(1 + index_where(pre.rem().drop_first(), q))
                                =~= pre.rem().drop_first().skip(
                                index_where(pre.rem().drop_first(), q),
                            ));
                        }
                    }
                    Ok(None) => {
                        proof {
                            assert(index_where(pre.rem(), q) == 0);
                            assert(pre.rem().skip(0) =~= pre.rem());
                        }
                        return Ok(());
                    }
                    Err(e) => {
                        proof {
                            assert(index_where(pre.rem(), q) == 0);
                            assert(pre.rem().skip(0) =~= pre.rem());
                        }
                        return Err(e);
                    }
                }
            }
        } else {
            self.it.advance()
        }
    }

    fn get(&self) -> (r: Option<&I::Item>) {
        self.it.get()
    }

    fn size_hint(&self) -> (r: (usize, Option<usize>)) {
        let h = self.it.size_hint();
        if self.done {
            h
        } else {
            (0, h.1)
        }
    }
}

} // verus!
