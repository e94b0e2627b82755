//! The clock plug-point.

use vstd::prelude::*;

verus! {

/// A source of timestamps for committed events.
///
/// The library never reads a clock itself; the application supplies one
/// through this trait.  Nothing is assumed about the values it produces.
pub trait Time: Sized + Clone + PartialEq + Eq {
    /// Returns the current time.
    fn now() -> Self;
}

} // verus!
