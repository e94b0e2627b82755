//! The in-memory store: commit conditions, batches, and reads.

use occur::revision::{Convert, OldOrNew};
use occur::serializer::{no_serialization, Noop};
use occur::store::inmem::Store;
use occur::store::{commit, read, Condition, Direction, Options, Position};
use occur::{CommitNumber, Event, Revision};

#[derive(Debug, Clone, PartialEq, Eq)]
pub enum UserEvent {
    Created { name: String },
    Renamed { new_name: String },
    Deactivated { reason: String },
}

impl Revision for UserEvent {
    type Value = (&'static str, u8);

    fn revision(&self) -> Self::Value {
        match self {
            UserEvent::Created { .. } => ("Created", 0),
            UserEvent::Renamed { .. } => ("Renamed", 0),
            UserEvent::Deactivated { .. } => ("Deactivated", 1),
        }
    }

    fn revision_set() -> Vec<Self::Value> {
        vec![("Created", 0), ("Renamed", 0), ("Deactivated", 1)]
    }
}

impl Event for UserEvent {
    type StreamId = u64;
    type OldRevision = OldUserRevision;
}

#[allow(non_camel_case_types)]
#[derive(Debug, Clone, PartialEq, Eq)]
pub enum OldUserRevision {
    Deactivated_V0,
}

impl Revision for OldUserRevision {
    type Value = (&'static str, u8);

    fn revision(&self) -> Self::Value {
        match self {
            OldUserRevision::Deactivated_V0 => ("Deactivated", 0),
        }
    }

    fn revision_set() -> Vec<Self::Value> {
        vec![("Deactivated", 0)]
    }
}

impl Convert for OldUserRevision {
    type Event = UserEvent;

    fn convert(self) -> OldOrNew<UserEvent> {
        match self {
            OldUserRevision::Deactivated_V0 => {
                OldOrNew::New(UserEvent::Deactivated { reason: "".to_owned() })
            }
        }
    }
}

type UserStore = Store<UserEvent, Noop<UserEvent>, Noop<UserEvent>>;

fn new_store() -> UserStore {
    Store::new(no_serialization())
}

fn created(name: &str) -> UserEvent {
    UserEvent::Created { name: name.to_owned() }
}

fn renamed(name: &str) -> UserEvent {
    UserEvent::Renamed { new_name: name.to_owned() }
}

#[test]
fn commit_numbers_are_monotonic_and_gap_free() {
    let mut store = new_store();
    for expected in 0..5u32 {
        let number = store
            .commit_unconditionally(7, created("admin"))
            .expect("an unconditional commit must succeed");
        assert_eq!(number, CommitNumber(expected));
    }
}

#[test]
fn two_commits_get_distinct_consecutive_numbers() {
    let mut store = new_store();
    let first = store.commit_unconditionally(1, created("a")).unwrap();
    let second = store.commit_unconditionally(1, created("b")).unwrap();
    assert_ne!(first, second);
    assert_eq!(second, CommitNumber(first.0 + 1));
    assert_eq!(first, CommitNumber(0));
}

#[test]
fn occ_commit_succeeds_only_at_current_length() {
    let mut store = new_store();
    store.commit_unconditionally(3, created("admin")).unwrap();

    let won = store.commit_as_number(3, renamed("root"), CommitNumber(1));
    assert_eq!(won.unwrap(), CommitNumber(1));

    // a racing writer that read the stream before the rename now loses
    let lost = store.commit_as_number(3, renamed("boss"), CommitNumber(1));
    assert_eq!(lost.unwrap_err().kind(), commit::ErrorKind::ConditionNotMet);

    // the failed attempt left the stream untouched
    let events = store.read_all(3).unwrap();
    assert_eq!(events, vec![created("admin"), renamed("root")]);
}

#[test]
fn batch_commit_is_atomic() {
    let mut store = new_store();

    let first = store
        .commit_many(9, vec![created("a"), renamed("b"), renamed("c")], Condition::Unconditional)
        .unwrap();
    assert_eq!(first, Some(CommitNumber(0)));
    assert_eq!(store.read_all(9).unwrap().len(), 3);

    // an empty batch is a no-op and returns no commit number
    let none = store.commit_many(9, vec![], Condition::Unconditional).unwrap();
    assert_eq!(none, None);
    assert_eq!(store.read_all(9).unwrap().len(), 3);

    // a failed condition appends nothing at all
    let lost = store.commit_many(
        9,
        vec![renamed("d"), renamed("e")],
        Condition::AssignCommitNumber(CommitNumber(7)),
    );
    assert_eq!(lost.unwrap_err().kind(), commit::ErrorKind::ConditionNotMet);
    assert_eq!(store.read_all(9).unwrap().len(), 3);
}

#[test]
fn read_bounds() {
    let mut store = new_store();
    store.commit_unconditionally(5, created("admin")).unwrap();
    store.commit_unconditionally(5, renamed("root")).unwrap();

    // position at or past the stream length does not exist
    let past = store.read(
        5,
        Options {
            position: Position::Commit(CommitNumber(2)),
            direction: Direction::Forward,
            limit: None,
        },
    );
    assert_eq!(past.unwrap_err().kind(), read::ErrorKind::CommitNotFound);

    // the last event of an empty stream does not exist either
    let empty = store.read(
        6,
        Options { position: Position::Last, direction: Direction::Backward, limit: None },
    );
    assert_eq!(empty.unwrap_err().kind(), read::ErrorKind::CommitNotFound);
}

#[test]
fn commit_then_read_in_both_directions() {
    let mut store = new_store();

    let first = store.commit_unconditionally(11, created("admin")).unwrap();
    assert_eq!(first, CommitNumber(0));
    let second = store.commit_unconditionally(11, renamed("root")).unwrap();
    assert_eq!(second, CommitNumber(1));

    let forward = store.read_all(11).unwrap();
    assert_eq!(forward, vec![created("admin"), renamed("root")]);

    let backward = store
        .read(
            11,
            Options { position: Position::Last, direction: Direction::Backward, limit: None },
        )
        .unwrap();
    assert_eq!(backward, vec![renamed("root"), created("admin")]);
}

#[test]
fn read_respects_limit_and_start() {
    let mut store = new_store();
    for name in ["a", "b", "c", "d"] {
        store.commit_unconditionally(2, created(name)).unwrap();
    }

    let middle = store
        .read(
            2,
            Options {
                position: Position::Commit(CommitNumber(1)),
                direction: Direction::Forward,
                limit: Some(2),
            },
        )
        .unwrap();
    assert_eq!(middle, vec![created("b"), created("c")]);

    let tail = store
        .read(
            2,
            Options {
                position: Position::Commit(CommitNumber(2)),
                direction: Direction::Backward,
                limit: Some(2),
            },
        )
        .unwrap();
    assert_eq!(tail, vec![created("c"), created("b")]);
}

#[test]
fn old_revisions_come_back_unconverted_or_converted() {
    let mut store = new_store();
    store
        .commit_old_or_new(4, OldOrNew::Old(OldUserRevision::Deactivated_V0), Condition::Unconditional)
        .unwrap();

    let raw = store
        .read_unconverted(
            4,
            Options { position: Position::First, direction: Direction::Forward, limit: None },
        )
        .unwrap();
    assert_eq!(raw.len(), 1);
    assert!(matches!(
        raw.as_slice(),
        [OldOrNew::Old(OldUserRevision::Deactivated_V0)]
    ));

    let converted = store.read_all(4).unwrap();
    assert_eq!(converted, vec![UserEvent::Deactivated { reason: "".to_owned() }]);
}

#[test]
fn streams_are_independent() {
    let mut store = new_store();
    store.commit_unconditionally(1, created("a")).unwrap();
    let other = store.commit_unconditionally(2, created("b")).unwrap();
    assert_eq!(other, CommitNumber(0));
    assert_eq!(store.read_all(1).unwrap(), vec![created("a")]);
    assert_eq!(store.read_all(2).unwrap(), vec![created("b")]);
}
