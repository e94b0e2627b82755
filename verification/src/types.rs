//! Sequence numbering for recorded events.

use vstd::prelude::*;

verus! {

/// The sequence number of a recorded event.
///
/// A recorded event is assigned a sequence number indicating its position
/// within the event stream.  The very first recorded event in a stream is
/// assigned the sequence number 0.
#[derive(Copy, Clone, PartialEq, Eq, Structural, Hash, Debug)]
pub struct SequenceNumber(pub usize);

impl SequenceNumber {
    /// Returns the sequence number `rhs` places after this one.
    pub fn add(self, rhs: usize) -> (r: Self)
        requires
            self.0 + rhs <= usize::MAX,
        ensures
            r.0 == self.0 + rhs,
    {
        SequenceNumber(self.0 + rhs)
    }

    /// Advances this sequence number by `rhs` places.
    pub fn add_assign(&mut self, rhs: usize)
        requires
            old(self).0 + rhs <= usize::MAX,
        ensures
            final(self).0 == old(self).0 + rhs,
    {
        self.0 = self.0 + rhs;
    }

    /// Returns how many places after `rhs` this sequence number is.
    pub fn sub(self, rhs: Self) -> (r: usize)
        requires
            self.0 >= rhs.0,
        ensures
            r == self.0 - rhs.0,
    {
        self.0 - rhs.0
    }
}

impl Default for SequenceNumber {
    /// The sequence number of the first event in a stream.
    fn default() -> (r: Self)
        ensures
            r.0 == 0,
    {
        SequenceNumber(0)
    }
}

} // verus!
