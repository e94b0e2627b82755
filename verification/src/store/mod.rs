//! The store contract: optimistic-concurrency commits and positioned,
//! directional, limited reads over independent event streams.

use vstd::prelude::*;

pub use commit::Condition;
pub use read::{Direction, Options, Position};

pub mod commit;
pub mod inmem;
pub mod read;

verus! {

/// A live feed of items from one stream.
///
/// The core store contract deliberately stops at point-in-time reads: a
/// read never observes commits made after it began.  Live tailing is an
/// extension point instead, and this is its interface; a backend that
/// offers it layers a notification mechanism on top of the commit path
/// without weakening the read-side snapshot guarantee.
pub trait Subscription: Sized {
    /// The type of items the subscription yields.
    type Item;

    /// Waits for and returns the next item, or `None` once the
    /// subscription is closed.
    fn next(&mut self) -> Option<Self::Item>;

    /// Stops the subscription.
    fn stop(self);
}

} // verus!
