//! An end-to-end fiddle: commit a handful of events, then read them back
//! in different ways, printing what comes out.

use occur::serializer::{no_serialization, Noop};
use occur::store::inmem::Store;
use occur::store::{Condition, Direction, Options, Position};
use occur::{CommitNumber, Event, Revision};

#[derive(Debug, Clone, PartialEq, Eq, Hash)]
enum TvShowTrackEvent {
    Created { tv_show_name: String },
    WatchedEpisode { season: u64, episode: u64 },
}

impl Revision for TvShowTrackEvent {
    type Value = (&'static str, u8);

    fn revision(&self) -> Self::Value {
        match self {
            TvShowTrackEvent::Created { .. } => ("Created", 0),
            TvShowTrackEvent::WatchedEpisode { .. } => ("WatchedEpisode", 0),
        }
    }

    fn revision_set() -> Vec<Self::Value> {
        vec![("Created", 0), ("WatchedEpisode", 0)]
    }
}

impl Event for TvShowTrackEvent {
    type StreamId = u64;
    type OldRevision = occur::revision::Empty<Self>;
}

#[test]
fn fiddle() {
    println!("\n----------------------- [ ThreadPool read test ]");

    let id: u64 = 17;
    let e0 = TvShowTrackEvent::Created { tv_show_name: "Elementary".to_owned() };
    let e1 = TvShowTrackEvent::WatchedEpisode { season: 1, episode: 1 };
    let e2 = TvShowTrackEvent::WatchedEpisode { season: 1, episode: 2 };
    let e3 = TvShowTrackEvent::WatchedEpisode { season: 1, episode: 3 };

    let create_store =
        || -> Store<TvShowTrackEvent, Noop<TvShowTrackEvent>, Noop<TvShowTrackEvent>> {
            Store::new(no_serialization())
        };

    let mut store = create_store();

    store.commit_as_number(id, e0.clone(), CommitNumber(0)).expect("wtf?");
    store.commit_unconditionally(id, e1.clone()).unwrap();
    store.commit_as_number(id, e2.clone(), CommitNumber(2)).expect("wtf?");
    store.commit_unconditionally(id, e3.clone()).expect("wtf?");

    for event in store.read_all(id).expect("wtf?") {
        println!("read {:?}", event);
    }

    println!("\n----------------------- [ ThreadPool read test ]");

    let id: u64 = 18;
    let mut store = create_store();

    store
        .commit_many(id, vec![e0.clone(), e1.clone()], Condition::Unconditional)
        .unwrap();

    let subscriber_events = store
        .read_unconverted(
            id,
            Options {
                position: Position::Commit(CommitNumber(1)),
                direction: Direction::Forward,
                limit: None,
            },
        )
        .expect("wtf?");
    for event in subscriber_events {
        println!("subscriber read {:?}", event.to_new());
    }

    store.commit_unconditionally(id, e2.clone()).expect("wtf?");
    store.commit_unconditionally(id, e3.clone()).expect("wtf?");

    println!("\n----------------------- [ LocalPool read test ]");

    let id: u64 = 19;
    let mut store = create_store();

    store.commit_as_number(id, e0, CommitNumber(0)).expect("wtf?");
    store.commit_unconditionally(id, e1).unwrap();
    store.commit_as_number(id, e2, CommitNumber(2)).expect("wtf?");
    store.commit_unconditionally(id, e3).expect("wtf?");

    for event in store.read_all(id).expect("wtf?") {
        println!("read {:?}", event);
    }
}
