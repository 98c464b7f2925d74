//! Fallible, streaming iteration.
//!
//! A [`FallibleStreamingIterator`] differs from an ordinary iterator in two
//! ways: advancing to the next position can fail with an error, and only one
//! element is observable at a time, borrowed from the iterator's own storage.
//!
//! Every iterator state carries a mathematical model: the current element, the
//! sequence of elements still to come, and the outcome that follows them.  The
//! contracts of the protocol and of every adaptor are stated over that model.

pub mod apply;
pub mod filter;
pub mod fuse;
pub mod laws;
pub mod mapped;
pub mod seqs;
pub mod skip;
pub mod source;
pub mod stream;
pub mod take;

pub use stream::FallibleStreamingIterator;
