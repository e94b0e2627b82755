//! The write side of the store contract.

use vstd::prelude::*;

use crate::commit_number::CommitNumber;

verus! {

/// Specifies the condition for a commit to succeed.
#[derive(Copy, Clone, PartialEq, Eq, Structural, Hash, Debug)]
pub enum Condition {
    /// No condition; a commit succeeds whenever the stream has room.
    Unconditional,
    /// For the commit to succeed, the event to be committed must be
    /// assigned the provided commit number.
    ///
    /// This is the optimistic-concurrency-control primitive: callers read
    /// the stream's expected next commit number beforehand, then commit
    /// conditionally, detecting write races without holding a lock across
    /// the read-then-write gap.
    ///
    /// When committing many events at once, this condition constrains the
    /// commit number assigned to the first event of the batch.
    AssignCommitNumber(CommitNumber),
}

/// Errors that might occur when committing an event to a stream.
#[derive(Copy, Clone, PartialEq, Eq, Structural, Hash, Debug)]
pub enum ErrorKind {
    /// The stream is full and cannot accept any more events.
    StreamFull,
    /// The specified commit condition was not met.
    ConditionNotMet,
    /// An unexpected, implementation-specific error occurred.
    Other,
}

/// Does a commit against a stream of `len` events succeed under
/// `condition`?
///
/// The next event would be assigned commit number `len`; the commit
/// succeeds when that number fits the commit-number type and satisfies the
/// condition.
pub open spec fn commit_allowed(len: nat, condition: Condition) -> bool {
    &&& len <= u32::MAX
    &&& (condition matches Condition::AssignCommitNumber(n) ==> n.0 == len)
}

/// The error kind reported for a refused commit against a stream of `len`
/// events: exhaustion of the commit-number range is reported before a
/// failed condition.
pub open spec fn refusal_kind(len: nat, condition: Condition) -> ErrorKind {
    if len > u32::MAX {
        ErrorKind::StreamFull
    } else {
        ErrorKind::ConditionNotMet
    }
}

/// Law (write races are detected): a commit condition naming a specific
/// commit number can succeed at most once.  Once a commit has appended an
/// event -- growing the stream past the named number -- the same
/// condition no longer holds, so of two writers that both read the same
/// stream length and commit conditionally, exactly the one that appends
/// first succeeds.
pub proof fn lemma_condition_is_single_use(len: nat, n: CommitNumber)
    requires
        commit_allowed(len, Condition::AssignCommitNumber(n)),
    ensures
        !commit_allowed(len + 1, Condition::AssignCommitNumber(n)),
{
}

} // verus!
