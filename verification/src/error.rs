//! A common shape for error types.

use vstd::prelude::*;

verus! {

/// An error type that has a `.kind()` method.
///
/// Callers branch on the machine-checkable kind, never on a human-readable
/// message.
pub trait ErrorWithKind {
    /// The kind type: an enum with the possible error kinds as variants,
    /// typically including a variant named `Other` for all unexpected
    /// errors.
    type Kind;

    /// Returns the kind of this error.
    fn kind(&self) -> Self::Kind;
}

} // verus!
