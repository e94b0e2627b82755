//! An event as recorded in an owned stream.

use vstd::prelude::*;

use crate::commit_number::CommitNumber;
use crate::stream::StreamDescription;

verus! {

/// An event that has been committed to an owned stream, together with the
/// stream id, the commit number it was assigned, and the time it was
/// recorded at.
pub struct CommittedEvent<T: StreamDescription> {
    /// The id of the stream the event was committed to.
    pub id: T::Id,
    /// The position of the event within its stream.
    pub commit_number: CommitNumber,
    /// The time the event was recorded at.
    pub time: T::Time,
    /// The recorded fact itself.
    pub event: T::Event,
}

/// A reference to one committed event: a stream id together with a commit
/// number.
pub struct Ref<T: StreamDescription> {
    /// The id of the stream the event was committed to.
    pub id: T::Id,
    /// The position of the event within its stream.
    pub commit_number: CommitNumber,
}

impl<T: StreamDescription> Ref<T> {
    /// Creates a reference from a stream id and a commit number.
    pub fn new(id: T::Id, commit_number: CommitNumber) -> (r: Self)
        ensures
            r.id == id,
            r.commit_number == commit_number,
    {
        Ref { id, commit_number }
    }
}

} // verus!
