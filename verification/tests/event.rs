//! Owned streams and event revision metadata.

use std::collections::HashSet;

use occur::revision::{Convert, OldOrNew};
use occur::{CommitNumber, Event, Revision, Stream, StreamDescription, Time};

#[derive(Clone, Copy, Hash, PartialEq, Eq, Debug)]
pub struct UserId(pub u32);

#[derive(Debug, Clone, PartialEq, Eq)]
pub enum UserEvent {
    Created { name: String, is_admin: bool },
    Renamed { new_name: String },
    Befriended { user: UserId },
    PromotedToAdmin { by: UserId },
    Deactivated { reason: String },
}

impl Revision for UserEvent {
    type Value = (&'static str, u8);

    fn revision(&self) -> Self::Value {
        match self {
            UserEvent::Created { .. } => ("Created", 0),
            UserEvent::Renamed { .. } => ("Renamed", 0),
            UserEvent::Befriended { .. } => ("Befriended", 0),
            UserEvent::PromotedToAdmin { .. } => ("PromotedToAdmin", 0),
            UserEvent::Deactivated { .. } => ("Deactivated", 1),
        }
    }

    fn revision_set() -> Vec<Self::Value> {
        vec![
            ("Created", 0),
            ("Renamed", 0),
            ("Befriended", 0),
            ("PromotedToAdmin", 0),
            ("Deactivated", 1),
        ]
    }
}

impl Event for UserEvent {
    type StreamId = UserId;
    type OldRevision = OldUserRevision;
}

#[allow(non_camel_case_types)]
#[derive(Debug, Clone, PartialEq, Eq)]
pub enum OldUserRevision {
    Deactivated_V0,
}

impl Revision for OldUserRevision {
    type Value = (&'static str, u8);

    fn revision(&self) -> Self::Value {
        match self {
            OldUserRevision::Deactivated_V0 => ("Deactivated", 0),
        }
    }

    fn revision_set() -> Vec<Self::Value> {
        vec![("Deactivated", 0)]
    }
}

impl Convert for OldUserRevision {
    type Event = UserEvent;

    fn convert(self) -> OldOrNew<UserEvent> {
        match self {
            OldUserRevision::Deactivated_V0 => {
                OldOrNew::New(UserEvent::Deactivated { reason: "".to_owned() })
            }
        }
    }
}

#[derive(Clone, Copy, PartialEq, Eq, Debug)]
pub struct TickClock(pub u64);

impl Time for TickClock {
    fn now() -> Self {
        TickClock(0)
    }
}

pub struct UserStreamDescription;

impl StreamDescription for UserStreamDescription {
    type Id = UserId;
    type Event = UserEvent;
    type Time = TickClock;
}

#[test]
fn create_stream() {
    let id = UserId(12);
    let stream: Stream<UserStreamDescription> = Stream::new(id);

    assert_eq!(stream.id(), &id);
    assert_eq!(
        stream.commit_numbers_range(),
        (CommitNumber(0), CommitNumber(0))
    );
    assert_eq!(stream.events().len(), 0);
}

#[test]
fn commit_events_in_stream() {
    let id = UserId(42);
    let mut stream: Stream<UserStreamDescription> = Stream::new(id);

    let created = stream.commit(UserEvent::Created {
        name: "admin".to_owned(),
        is_admin: true,
    });
    assert_eq!(created.id, id);
    assert_eq!(created.commit_number, CommitNumber(0));
    assert_eq!(
        created.event,
        UserEvent::Created { name: "admin".to_owned(), is_admin: true }
    );

    stream.commit_array(vec![
        UserEvent::Renamed { new_name: "root".to_owned() },
        UserEvent::Deactivated { reason: "bot".to_owned() },
    ]);

    assert_eq!(
        stream.commit_numbers_range(),
        (CommitNumber(0), CommitNumber(3))
    );
    let events = stream.take_events();
    assert_eq!(events.len(), 3);
    assert_eq!(events[1].event, UserEvent::Renamed { new_name: "root".to_owned() });
    assert_eq!(events[2].commit_number, CommitNumber(2));
}

#[test]
fn convert_old_event() {
    let old_event = OldUserRevision::Deactivated_V0;
    let new_event = occur::revision::convert_until_new(old_event);
    assert_eq!(new_event, UserEvent::Deactivated { reason: "".to_owned() });
}

#[test]
fn supported_revisions() {
    let supported: HashSet<_> = UserEvent::supported_revisions().into_iter().collect();
    assert_eq!(
        supported,
        HashSet::from([
            ("Created", 0),
            ("Renamed", 0),
            ("Befriended", 0),
            ("PromotedToAdmin", 0),
            ("Deactivated", 1),
            ("Deactivated", 0),
        ])
    );

    let old_supported: HashSet<_> = OldUserRevision::revision_set().into_iter().collect();
    assert_eq!(old_supported, HashSet::from([("Deactivated", 0)]));
}
