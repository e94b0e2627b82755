//! Versioning for recorded events.

use vstd::prelude::*;

verus! {

/// The version of a recorded event: a sequence number indicating its
/// position within the event stream.
///
/// The very first recorded event in a stream is assigned version 0.
#[derive(Copy, Clone, PartialEq, Eq, Structural, Hash, Debug)]
pub struct Version(pub u32);

impl Version {
    /// Returns the version `rhs` places after this one.
    pub fn add(self, rhs: u32) -> (r: Self)
        requires
            self.0 + rhs <= u32::MAX,
        ensures
            r.0 == self.0 + rhs,
    {
        Version(self.0 + rhs)
    }

    /// Advances this version by `rhs` places.
    pub fn add_assign(&mut self, rhs: u32)
        requires
            old(self).0 + rhs <= u32::MAX,
        ensures
            final(self).0 == old(self).0 + rhs,
    {
        self.0 = self.0 + rhs;
    }

    /// Returns how many places after `rhs` this version is.
    pub fn sub(self, rhs: Self) -> (r: u32)
        requires
            self.0 >= rhs.0,
        ensures
            r == self.0 - rhs.0,
    {
        self.0 - rhs.0
    }
}

impl Default for Version {
    /// The version of the first event in a stream.
    fn default() -> (r: Self)
        ensures
            r.0 == 0,
    {
        Version(0)
    }
}

} // verus!
