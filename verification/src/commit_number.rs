//! The sequence number assigned to a committed event.

use vstd::prelude::*;

verus! {

/// The sequence number of a committed event.
///
/// A committed event is assigned a commit number indicating its position
/// within its event stream.  The very first event in a stream is assigned
/// commit number 0, and each later event the next number, without gaps.
#[derive(Copy, Clone, PartialEq, Eq, Structural, Hash, Debug)]
pub struct CommitNumber(pub u32);

impl CommitNumber {
    /// Returns the commit number `rhs` places after this one.
    pub fn add(self, rhs: u32) -> (r: Self)
        requires
            self.0 + rhs <= u32::MAX,
        ensures
            r.0 == self.0 + rhs,
    {
        CommitNumber(self.0 + rhs)
    }

    /// Advances this commit number by `rhs` places.
    pub fn add_assign(&mut self, rhs: u32)
        requires
            old(self).0 + rhs <= u32::MAX,
        ensures
            final(self).0 == old(self).0 + rhs,
    {
        self.0 = self.0 + rhs;
    }

    /// Returns how many places after `rhs` this commit number is.
    pub fn sub(self, rhs: Self) -> (r: u32)
        requires
            self.0 >= rhs.0,
        ensures
            r == self.0 - rhs.0,
    {
        self.0 - rhs.0
    }
}

impl Default for CommitNumber {
    /// The commit number of the first event in a stream.
    fn default() -> (r: Self)
        ensures
            r.0 == 0,
    {
        CommitNumber(0)
    }
}

} // verus!
