//! Commit numbers, sequence numbers and versions.

use occur::store::{commit, Condition};
use occur::{CommitNumber, SequenceNumber, Version};

#[test]
fn commit_number_arithmetic() {
    let n = CommitNumber(3).add(2);
    assert_eq!(n, CommitNumber(5));

    let mut m = CommitNumber::default();
    assert_eq!(m, CommitNumber(0));
    m.add_assign(7);
    assert_eq!(m, CommitNumber(7));

    assert_eq!(m.sub(CommitNumber(5)), 2);
}

#[test]
fn sequence_number_arithmetic() {
    let n = SequenceNumber(3).add(2);
    assert_eq!(n, SequenceNumber(5));

    let mut m = SequenceNumber::default();
    assert_eq!(m, SequenceNumber(0));
    m.add_assign(7);
    assert_eq!(m, SequenceNumber(7));

    assert_eq!(m.sub(SequenceNumber(5)), 2);
}

#[test]
fn version_arithmetic() {
    let n = Version(3).add(2);
    assert_eq!(n, Version(5));

    let mut m = Version::default();
    assert_eq!(m, Version(0));
    m.add_assign(7);
    assert_eq!(m, Version(7));

    assert_eq!(m.sub(Version(5)), 2);
}

#[test]
fn next_commit_number_follows_the_condition() {
    let unconditional = occur::store::inmem::next_commit_number(4, Condition::Unconditional);
    assert_eq!(unconditional.unwrap(), CommitNumber(4));

    let matching = occur::store::inmem::next_commit_number(
        4,
        Condition::AssignCommitNumber(CommitNumber(4)),
    );
    assert_eq!(matching.unwrap(), CommitNumber(4));

    let mismatched = occur::store::inmem::next_commit_number(
        4,
        Condition::AssignCommitNumber(CommitNumber(3)),
    );
    assert_eq!(
        mismatched.unwrap_err().kind(),
        commit::ErrorKind::ConditionNotMet
    );
}

#[test]
fn next_commit_number_reports_a_full_stream() {
    let full = occur::store::inmem::next_commit_number(
        u32::MAX as usize + 1,
        Condition::Unconditional,
    );
    assert_eq!(full.unwrap_err().kind(), commit::ErrorKind::StreamFull);
}
