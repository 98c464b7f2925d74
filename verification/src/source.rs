//! A concrete source: iteration over a vector, with an optional scripted
//! fault, so that consumers and adaptors can be driven and tested.

use vstd::prelude::*;
use crate::stream::FallibleStreamingIterator;

verus! {

/// The error a [`VecSource`] reports when it reaches its scripted fault.
#[derive(Clone, Copy, Debug, PartialEq, Eq)]
pub struct SourceError;

/// A source yielding the elements of a vector in order.
///
/// A fault can be scripted: `err_at == Some(k)` makes the advance that would
/// otherwise yield element `k` report [`SourceError`] instead; with
/// `k == items.len()` the source first reports clean exhaustion once, and
/// errors on the advance after that.
pub struct VecSource<T> {
    items: Vec<T>,
    pos: usize,
    ended: bool,
    failed: bool,
    err_at: Option<usize>,
}

impl<T> VecSource<T> {
    /// A fresh source over `items`, positioned before the first element.
    pub fn new(items: Vec<T>) -> (s: Self)
        ensures
            s.wf(),
            s.cur() is None,
            s.rem() == items@,
            s.fail() is None,
            s.fused(),
    {
        VecSource { items, pos: 0, ended: false, failed: false, err_at: None }
    }

    /// A fresh source over `items` that reports an error in place of element
    /// `at` — or, if `at == items.len()`, on the advance after exhaustion.
    pub fn with_fault(items: Vec<T>, at: usize) -> (s: Self)
        ensures
            s.wf(),
            s.cur() is None,
            s.rem() == (if at < items@.len() { items@.take(at as int) } else { items@ }),
            s.fail() == (if at < items@.len() { Some(SourceError) } else { None::<SourceError> }),
            s.fused() == (at < items@.len()),
    {
        VecSource { items, pos: 0, ended: false, failed: false, err_at: Some(at) }
    }
}

impl<T> FallibleStreamingIterator for VecSource<T> {
    type Item = T;

    type Error = SourceError;

    closed spec fn wf(&self) -> bool {
        &&& self.pos <= self.items@.len()
        &&& self.ended ==> self.pos == self.items@.len()
        &&& (!self.failed && self.err_at is Some) ==> self.pos <= self.err_at->0
    }

    closed spec fn cur(&self) -> Option<T> {
        if self.failed || self.ended || self.pos == 0 {
            None
        } else {
            Some(self.items@[self.pos - 1])
        }
    }

    closed spec fn rem(&self) -> Seq<T> {
        if self.failed {
            Seq::empty()
        } else {
            let stop = match self.err_at {
                Some(k) => if k < self.items@.len() { k as int } else { self.items@.len() as int },
                None => self.items@.len() as int,
            };
            self.items@.subrange(self.pos as int, stop)
        }
    }

    closed spec fn fail(&self) -> Option<SourceError> {
        if self.failed {
            None
        } else {
            match self.err_at {
                Some(k) => if k < self.items@.len() || (k == self.items@.len() && self.ended) {
                    Some(SourceError)
                } else {
                    None
                },
                None => None,
            }
        }
    }

    closed spec fn fused(&self) -> bool {
        match self.err_at {
            Some(k) => self.failed || k < self.items@.len(),
            None => true,
        }
    }

    closed spec fn hint(&self) -> (usize, Option<usize>) {
        let stop = match self.err_at {
            Some(k) => if k < self.items@.len() { k as int } else { self.items@.len() as int },
            None => self.items@.len() as int,
        };
        let left = if self.failed || self.pos > stop {
            0
        } else {
            (stop - self.pos) as usize
        };
        (left, Some(left))
    }

    fn advance(&mut self) -> (r: Result<(), SourceError>) {
        if self.failed {
            return Ok(());
        }
        let hit = match self.err_at {
            Some(k) => self.pos == k && (self.pos < self.items.len() || self.ended),
            None => false,
        };
        if hit {
            self.failed = true;
            Err(SourceError)
        } else if self.pos < self.items.len() {
            self.pos = self.pos + 1;
            Ok(())
        } else {
            self.ended = true;
            Ok(())
        }
    }

    fn get(&self) -> (r: Option<&T>) {
        if self.failed || self.ended || self.pos == 0 || self.pos > self.items.len() {
            None
        } else {
            Some(&self.items[self.pos - 1])
        }
    }

    fn size_hint(&self) -> (r: (usize, Option<usize>)) {
        let left: usize = if self.failed {
            0
        } else {
            let stop = match self.err_at {
                Some(k) => if k < self.items.len() { k } else { self.items.len() },
                None => self.items.len(),
            };
            if self.pos > stop {
                0
            } else {
                stop - self.pos
            }
        };
        (left, Some(left))
    }
}

} // verus!
