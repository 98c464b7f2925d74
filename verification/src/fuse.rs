//! The [`Fuse`] adaptor: well-behaved at the beginning and end of iteration.

use vstd::prelude::*;
use crate::stream::FallibleStreamingIterator;

verus! {

/// Where a [`Fuse`] stands: before the first element, on an element, or past
/// the end for good.
#[derive(Copy, Clone)]
pub enum FuseState {
    /// No element has been requested yet.
    Start,
    /// The source has produced at least one element and is not known to be done.
    Middle,
    /// The source reported exhaustion or an error; neither is asked again.
    End,
}

/// An iterator which is well-behaved at the beginning and end of iteration:
/// before the first advance it shows no element, and once exhaustion or an
/// error has been reported, every later call succeeds with no element and
/// the source is not driven again.
pub struct Fuse<I> {
    /// The source being fused.
    pub it: I,
    /// Where the iteration stands.
    pub state: FuseState,
}

impl<I: FallibleStreamingIterator> FallibleStreamingIterator for Fuse<I> {
    type Item = I::Item;

    type Error = I::Error;

    open spec fn wf(&self) -> bool {
        self.it.wf()
    }

    open spec fn cur(&self) -> Option<I::Item> {
        if self.state is Middle {
            self.it.cur()
        } else {
            None
        }
    }

    open spec fn rem(&self) -> Seq<I::Item> {
        if self.state is End {
            Seq::empty()
        } else {
            self.it.rem()
        }
    }

    open spec fn fail(&self) -> Option<I::Error> {
        if self.state is End {
            None
        } else {
            self.it.fail()
        }
    }

    open spec fn fused(&self) -> bool {
        true
    }

    open spec fn hint(&self) -> (usize, Option<usize>) {
        self.it.hint()
    }

    #[verifier::rlimit(50)]
    fn advance(&mut self) -> (r: Result<(), I::Error>) {
        match self.state {
            FuseState::Start => {
                match self.it.next() {
                    Ok(Some(_)) => self.state = FuseState::Middle,
                    Ok(None) => self.state = FuseState::End,
                    Err(e) => {
                        self.state = FuseState::End;
                        proof {
                            assert(self.fused());
                        }
                        return Err(e);
                    }
                };
            }
            FuseState::Middle => {
                match self.it.next() {
                    Ok(Some(_)) => {}
                    Ok(None) => self.state = FuseState::End,
                    Err(e) => {
                        self.state = FuseState::End;
                        proof {
                            assert(self.fused());
                        }
                        return Err(e);
                    }
                }
            }
            FuseState::End => {}
        }
        proof {
            assert(self.fused());
        }
        Ok(())
    }

    fn get(&self) -> (r: Option<&I::Item>) {
        match self.state {
            FuseState::Middle => self.it.get(),
            FuseState::Start | FuseState::End => None,
        }
    }

    fn size_hint(&self) -> (r: (usize, Option<usize>)) {
        self.it.size_hint()
    }

    #[verifier::spinoff_prover]
    #[verifier::rlimit(50)]
    fn next(&mut self) -> (r: Result<Option<&I::Item>, I::Error>) {
        proof {
            assert(self.fused());
        }
        match self.state {
            FuseState::Start => {
                match self.it.next() {
                    Ok(Some(v)) => {
                        self.state = FuseState::Middle;
                        Ok(Some(v))
                    }
                    Ok(None) => {
                        self.state = FuseState::End;
                        Ok(None)
                    }
                    Err(e) => {
                        self.state = FuseState::End;
                        Err(e)
                    }
                }
            }
            FuseState::Middle => {
                match self.it.next() {
                    Ok(Some(v)) => Ok(Some(v)),
                    Ok(None) => {
                        self.state = FuseState::End;
                        Ok(None)
                    }
                    Err(e) => {
                        self.state = FuseState::End;
                        Err(e)
                    }
                }
            }
            FuseState::End => Ok(None),
        }
    }
}

} // verus!
