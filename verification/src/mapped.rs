//! The [`Mapped`] and [`MapRef`] adaptors: apply a transform to elements.

use vstd::prelude::*;
use crate::apply::{RefTransform, Transform};
use crate::seqs::{lemma_map_values_congruent, lemma_map_values_first};
use crate::stream::FallibleStreamingIterator;

verus! {

/// An iterator which applies a transform to elements: it yields, in order,
/// the transform of each source element, buffering the owned result so it
/// can be borrowed from the adaptor's own storage.
pub struct Mapped<I, F, B> {
    /// The source whose elements are transformed.
    pub it: I,
    /// The transform applied to each element.
    pub f: F,
    /// The transformed value produced by the latest advance, if any.
    pub value: Option<B>,
}

impl<I: FallibleStreamingIterator, F: Transform<I::Item, B>, B> FallibleStreamingIterator for Mapped<
    I,
    F,
    B,
> {
    type Item = B;

    type Error = I::Error;

    open spec fn wf(&self) -> bool {
        self.it.wf()
    }

    open spec fn cur(&self) -> Option<B> {
        self.value
    }

    open spec fn rem(&self) -> Seq<B> {
        self.it.rem().map_values(|x: I::Item| self.f.apply(x))
    }

    open spec fn fail(&self) -> Option<I::Error> {
        self.it.fail()
    }

    open spec fn fused(&self) -> bool {
        self.it.fused()
    }

    open spec fn hint(&self) -> (usize, Option<usize>) {
        self.it.hint()
    }

    fn advance(&mut self) -> (r: Result<(), I::Error>) {
        let ghost pre = self.it;
        let step = self.it.next();
        match step {
            Ok(Some(v)) => {
                let b = self.f.call(v);
                self.value = Some(b);
                proof {
                    lemma_map_values_first(pre.rem(), |x: I::Item| old(self).f.apply(x));
                    lemma_map_values_congruent(
                        self.it.rem(),
                        |x: I::Item| self.f.apply(x),
                        |x: I::Item| old(self).f.apply(x),
                    );
                }
                Ok(())
            }
            Ok(None) => {
                self.value = None;
                Ok(())
            }
            Err(e) => {
                self.value = None;
                Err(e)
            }
        }
    }

    fn get(&self) -> (r: Option<&B>) {
        self.value.as_ref()
    }

    fn size_hint(&self) -> (r: (usize, Option<usize>)) {
        self.it.size_hint()
    }
}

/// An iterator which applies a transform to elements.
///
/// Unlike [`Mapped`], the transform returns a reference into the original
/// element, so nothing is buffered: `get` projects the source's current
/// element on every call.
pub struct MapRef<I, F> {
    /// The source whose elements are transformed.
    pub it: I,
    /// The transform applied to each element.
    pub f: F,
}

impl<I: FallibleStreamingIterator, F: RefTransform<I::Item>> FallibleStreamingIterator for MapRef<
    I,
    F,
> {
    type Item = F::Out;

    type Error = I::Error;

    open spec fn wf(&self) -> bool {
        self.it.wf()
    }

    open spec fn cur(&self) -> Option<F::Out> {
        match self.it.cur() {
            Some(x) => Some(self.f.apply(x)),
            None => None,
        }
    }

    open spec fn rem(&self) -> Seq<F::Out> {
        self.it.rem().map_values(|x: I::Item| self.f.apply(x))
    }

    open spec fn fail(&self) -> Option<I::Error> {
        self.it.fail()
    }

    open spec fn fused(&self) -> bool {
        self.it.fused()
    }

    open spec fn hint(&self) -> (usize, Option<usize>) {
        self.it.hint()
    }

    fn advance(&mut self) -> (r: Result<(), I::Error>) {
        let ghost pre = self.it;
        let r = self.it.advance();
        proof {
            if pre.rem().len() > 0 {
                lemma_map_values_first(pre.rem(), |x: I::Item| self.f.apply(x));
            }
        }
        r
    }

    fn get(&self) -> (r: Option<&F::Out>) {
        match self.it.get() {
            Some(v) => Some(self.f.call(v)),
            None => None,
        }
    }

    fn size_hint(&self) -> (r: (usize, Option<usize>)) {
        self.it.size_hint()
    }
}

} // verus!
