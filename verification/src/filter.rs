//! The [`Filter`] adaptor: keeps the elements a predicate accepts.

use vstd::prelude::*;
use crate::apply::Predicate;
use crate::seqs::{lemma_filter_congruent, lemma_filter_first};
use crate::stream::FallibleStreamingIterator;

verus! {

/// An iterator which filters elements with a predicate: it yields, in order,
/// exactly the elements of its source that the predicate accepts, and
/// propagates the source's error unchanged.
pub struct Filter<I, F> {
    /// The source being filtered.
    pub it: I,
    /// The predicate deciding which elements to keep.
    pub f: F,
}

impl<I: FallibleStreamingIterator, F: Predicate<I::Item>> FallibleStreamingIterator for Filter<
    I,
    F,
> {
    type Item = I::Item;

    type Error = I::Error;

    open spec fn wf(&self) -> bool {
        self.it.wf()
    }

    open spec fn cur(&self) -> Option<I::Item> {
        self.it.cur()
    }

    open spec fn rem(&self) -> Seq<I::Item> {
        self.it.rem().filter(|x: I::Item| self.f.test(x))
    }

    open spec fn fail(&self) -> Option<I::Error> {
        self.it.fail()
    }

    open spec fn fused(&self) -> bool {
        self.it.fused()
    }

    open spec fn hint(&self) -> (usize, Option<usize>) {
        (0, self.it.hint().1)
    }

    fn advance(&mut self) -> (r: Result<(), I::Error>) {
        loop
            invariant
                self.it.wf(),
                forall|x: I::Item| #[trigger] self.f.test(x) == old(self).f.test(x),
                self.it.fail() == old(self).it.fail(),
                self.it.fused() == old(self).it.fused(),
                self.it.rem().filter(|x: I::Item| old(self).f.test(x)) == old(self).rem(),
            decreases self.it.rem().len(),
        {
            let ghost pre = self.it;
            let step = self.it.next();
            match step {
                Ok(Some(v)) => {
                    proof {
                        lemma_filter_first(pre.rem(), |x: I::Item| old(self).f.test(x));
                    }
                    if self.f.call(v) {
                        proof {
                            lemma_filter_congruent(
                                self.it.rem(),
                                |x: I::Item| self.f.test(x),
                                |x: I::Item| old(self).f.test(x),
                            );
                            assert((seq![pre.rem()[0]] + self.it.rem().filter(
                                |x: I::Item| old(self).f.test(x),
                            )).drop_first() =~= self.it.rem().filter(
                                |x: I::Item| old(self).f.test(x),
                            ));
                        }
                        return Ok(());
                    }
                }
                Ok(None) => {
                    proof {
                        lemma_filter_congruent(
                            self.it.rem(),
                            |x: I::Item| self.f.test(x),
                            |x: I::Item| old(self).f.test(x),
                        );
                    }
                    return Ok(());
                }
                Err(e) => {
                    proof {
                        lemma_filter_congruent(
                            self.it.rem(),
                            |x: I::Item| self.f.test(x),
                            |x: I::Item| old(self).f.test(x),
                        );
                    }
                    return Err(e);
                }
            }
        }
    }

    fn get(&self) -> (r: Option<&I::Item>) {
        self.it.get()
    }

    fn size_hint(&self) -> (r: (usize, Option<usize>)) {
        (0, self.it.size_hint().1)
    }
}

} // verus!
