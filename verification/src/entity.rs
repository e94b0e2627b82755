//! The entity fold-reducer contract.

use vstd::prelude::*;

use crate::event::Event;

verus! {

/// The result of folding an event stream.
///
/// This is the plug-point for domain code that replays events into
/// aggregate state; the store neither implements nor interprets it.
pub trait Entity<T: Event>: Sized {
    /// Creates a new entity from the provided stream `id` and `event`.
    ///
    /// An event represents a recorded fact and cannot fail to be applied:
    /// non-creation events are simply ignored, returning `None`.
    fn new(id: T::StreamId, event: T) -> Option<Self>;

    /// Folds the existing entity using the provided `event`.
    ///
    /// An event represents a recorded fact and cannot fail to be applied:
    /// events that cannot be used to fold the current entity are simply
    /// ignored, returning the entity unchanged.
    fn fold(self, event: T) -> Self;
}

} // verus!
