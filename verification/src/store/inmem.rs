//! The in-memory reference store.
//!
//! A concrete, fully verified implementation of the store contract over
//! process memory.  It serves both as a real backend (for instance in
//! tests) and as the executable proof that the contract is implementable
//! correctly: any durable backend is expected to satisfy the same
//! contracts.

use std::collections::HashMap;

use vstd::pervasive::cloned;
use vstd::prelude::*;

use crate::commit_number::CommitNumber;
use crate::error::ErrorWithKind;
use crate::event::Event;
use crate::revision::{conversion_laws_hold, Convert, OldOrNew};
use crate::serializer::{Deserializer, Serialization, Serializer};
use crate::store::commit;
use crate::store::commit::{commit_allowed, refusal_kind, Condition};
use crate::store::read;
use crate::store::read::Options;

verus! {

/// An error that occurred while committing an event to a stream.
///
/// A failed optimistic-concurrency check is an expected, recoverable
/// outcome under contention, so this error is nothing but its kind: cheap
/// to produce on the hot path.
#[derive(Copy, Clone, PartialEq, Eq, Structural, Debug)]
pub struct CommitError {
    kind: commit::ErrorKind,
}

/// The error type returned by the write side of an in-memory stream.
pub type WriteError = CommitError;

impl CommitError {
    /// The kind of this error, as specifications see it.
    pub closed spec fn spec_kind(self) -> commit::ErrorKind {
        self.kind
    }

    /// Returns the kind of this error.
    pub fn kind(&self) -> (k: commit::ErrorKind)
        ensures
            k == self.spec_kind(),
    {
        self.kind
    }
}

impl ErrorWithKind for CommitError {
    type Kind = commit::ErrorKind;

    fn kind(&self) -> commit::ErrorKind {
        self.kind
    }
}

/// An error that occurred while reading events from a stream.
#[derive(Copy, Clone, PartialEq, Eq, Structural, Debug)]
pub struct ReadError {
    kind: read::ErrorKind,
}

impl ReadError {
    /// The kind of this error, as specifications see it.
    pub closed spec fn spec_kind(self) -> read::ErrorKind {
        self.kind
    }

    /// Returns the kind of this error.
    pub fn kind(&self) -> (k: read::ErrorKind)
        ensures
            k == self.spec_kind(),
    {
        self.kind
    }
}

impl ErrorWithKind for ReadError {
    type Kind = read::ErrorKind;

    fn kind(&self) -> read::ErrorKind {
        self.kind
    }
}

/// Computes the commit number for the next event of a stream that holds
/// `n_events` events, checking it against the commit `condition`.
///
/// The next event is assigned a commit number equal to the stream's
/// current length.  The call fails with [`commit::ErrorKind::StreamFull`]
/// when that number no longer fits the commit-number type, and with
/// [`commit::ErrorKind::ConditionNotMet`] when the condition names any
/// other number: this is what makes conditional commits detect write
/// races.
pub fn next_commit_number(n_events: usize, condition: Condition) -> (r: Result<
    CommitNumber,
    CommitError,
>)
    ensures
        r is Ok <==> commit_allowed(n_events as nat, condition),
        r matches Ok(n) ==> n.0 == n_events,
        r matches Err(e) ==> e.spec_kind() == refusal_kind(n_events as nat, condition),
{
    if n_events > u32::MAX as usize {
        return Err(CommitError { kind: commit::ErrorKind::StreamFull });
    }
    let number = CommitNumber(n_events as u32);
    match condition {
        Condition::Unconditional => Ok(number),
        Condition::AssignCommitNumber(wanted) => {
            if wanted.0 == number.0 {
                Ok(number)
            } else {
                Err(CommitError { kind: commit::ErrorKind::ConditionNotMet })
            }
        }
    }
}

/// One append-only event stream, stored in memory.
///
/// The type is generic in the stored item: the store keeps whatever its
/// serialization plug-point produces.  The view of a stream is the
/// sequence of its stored items, in commit order; the item at index `i`
/// carries commit number `i`.
pub struct Stream<E> {
    events: Vec<E>,
}

impl<E> View for Stream<E> {
    type V = Seq<E>;

    closed spec fn view(&self) -> Seq<E> {
        self.events@
    }
}

impl<E> Stream<E> {
    /// Creates an empty event stream.
    ///
    /// A stream that was never written to is equivalent to an empty
    /// stream, so this is also what reading or writing an unknown stream
    /// id starts from.
    pub fn new() -> (s: Self)
        ensures
            s@ == Seq::<E>::empty(),
    {
        Stream { events: Vec::new() }
    }

    /// The number of committed events in the stream.
    pub fn len(&self) -> (n: usize)
        ensures
            n == self@.len(),
    {
        self.events.len()
    }

    /// Commits either an old or a new event revision to the stream, given
    /// the provided condition holds.
    ///
    /// On success the event is appended and its assigned commit number --
    /// the stream's length just before the append -- is returned.  On
    /// failure the stream is left exactly as it was.  The commit succeeds
    /// if and only if the stream has room and the condition matches.
    pub fn commit_old_or_new(&mut self, event: E, condition: Condition) -> (r: Result<
        CommitNumber,
        CommitError,
    >)
        ensures
            r is Ok <==> commit_allowed(old(self)@.len(), condition),
            r matches Ok(n) ==> n.0 == old(self)@.len() && final(self)@ == old(self)@.push(event),
            r matches Err(e) ==> final(self)@ == old(self)@ && e.spec_kind() == refusal_kind(
                old(self)@.len(),
                condition,
            ),
    {
        let commit_number = next_commit_number(self.events.len(), condition)?;
        self.events.push(event);
        Ok(commit_number)
    }

    /// Commits an ordered batch of events to the stream, given the
    /// provided condition holds.
    ///
    /// The batch is atomic: either every event is appended, in order, or
    /// none is and the error is returned.  The condition is checked
    /// against the commit number assigned to the *first* event of the
    /// batch, which is returned on success.  An empty batch is a no-op: it
    /// returns no commit number and never touches the condition check.
    pub fn commit_many(&mut self, events: Vec<E>, condition: Condition) -> (r: Result<
        Option<CommitNumber>,
        CommitError,
    >)
        ensures
            events@.len() == 0 ==> (r matches Ok(n) && n is None && final(self)@ == old(self)@),
            events@.len() > 0 ==> {
                &&& r is Ok <==> commit_allowed(old(self)@.len(), condition)
                &&& (r matches Ok(n) ==> n matches Some(first) && first.0 == old(self)@.len()
                    && final(self)@ == old(self)@ + events@)
                &&& (r matches Err(e) ==> final(self)@ == old(self)@ && e.spec_kind()
                    == refusal_kind(old(self)@.len(), condition))
            },
    {
        if events.len() == 0 {
            return Ok(None);
        }
        let commit_number = next_commit_number(self.events.len(), condition)?;
        let mut to_append = events;
        self.events.append(&mut to_append);
        Ok(Some(commit_number))
    }

    /// Reads events from the stream, exactly as stored.
    ///
    /// The starting position is resolved to an index; if that index does
    /// not exist in the stream -- including reading `Last` on an empty
    /// stream -- the read fails with [`read::ErrorKind::CommitNotFound`],
    /// and that is the only way it can fail.  Otherwise the read walks
    /// from the starting index in the chosen direction, inclusive of the
    /// start, up to the optional limit, and returns clones of the selected
    /// items in walk order: a point-in-time snapshot.
    pub fn read_unconverted(&self, options: Options) -> (r: Result<Vec<E>, ReadError>) where
        E: Clone

        ensures
            r is Ok <==> options.start_exists(self@.len() as int),
            r matches Err(e) ==> e.spec_kind() == read::ErrorKind::CommitNotFound,
            r matches Ok(out) ==> {
                &&& out@.len() == options.count(self@.len() as int)
                &&& forall|i: int|
                    0 <= i < out@.len() ==> cloned(
                        self@[options.selected(self@.len() as int, i)],
                        #[trigger] out@[i],
                    )
            },
    {
        let len = self.events.len();
        let start_missing = match options.position {
            read::Position::First => len == 0,
            read::Position::Last => len == 0,
            read::Position::Commit(n) => n.0 as usize >= len,
        };
        if start_missing {
            return Err(ReadError { kind: read::ErrorKind::CommitNotFound });
        }
        let start: usize = match options.position {
            read::Position::First => 0,
            read::Position::Last => len - 1,
            read::Position::Commit(n) => n.0 as usize,
        };
        let available: usize = match options.direction {
            read::Direction::Forward => len - start,
            read::Direction::Backward => start + 1,
        };
        let count: usize = match options.limit {
            Some(l) => if l <= available {
                l
            } else {
                available
            },
            None => available,
        };
        let mut out: Vec<E> = Vec::new();
        let mut taken: usize = 0;
        while taken < count
            invariant
                self@.len() <= usize::MAX,
                count == options.count(self@.len() as int),
                options.start_exists(self@.len() as int),
                start == options.start_index(self@.len() as int),
                taken <= count,
                out@.len() == taken,
                count <= self@.len(),
                options.direction matches read::Direction::Forward ==> start + count
                    <= self@.len(),
                options.direction matches read::Direction::Backward ==> count <= start + 1,
                forall|i: int|
                    0 <= i < taken ==> cloned(
                        self@[options.selected(self@.len() as int, i)],
                        #[trigger] out@[i],
                    ),
            decreases count - taken,
        {
            let index: usize = match options.direction {
                read::Direction::Forward => start + taken,
                read::Direction::Backward => start - taken,
            };
            out.push(self.events[index].clone());
            taken = taken + 1;
        }
        Ok(out)
    }
}

/// An in-memory event store: a mapping from stream id to one append-only
/// stream, parameterized by the serialization plug-point.
///
/// A stream does not have to exist before writing or reading it: a
/// non-existent stream is equivalent to an empty stream.  Stream ids are
/// machine words; an application-level id type maps onto them however the
/// application chooses.  Streams are fully independent: an operation on
/// one stream never changes or observes another, as every commit contract
/// below states.
///
/// Exclusive access for the check-then-append step of a commit is what
/// makes optimistic concurrency meaningful; here that exclusivity is the
/// exclusive borrow the commit methods take.
#[verifier::reject_recursive_types(T)]
#[verifier::reject_recursive_types(S)]
#[verifier::reject_recursive_types(D)]
pub struct Store<T, S, D> where
    T: Event,
    S: Serializer<Event = T>,
    D: Deserializer<Event = T, SerializedEvent = S::SerializedEvent>,
 {
    events_by_stream_id: HashMap<u64, Stream<S::SerializedEvent>>,
    serializer: S,
    deserializer: D,
}

impl<T, S, D> Store<T, S, D> where
    T: Event,
    S: Serializer<Event = T>,
    D: Deserializer<Event = T, SerializedEvent = S::SerializedEvent>,
 {
    /// The serializer the store was constructed with.
    pub closed spec fn spec_serializer(self) -> S {
        self.serializer
    }

    /// The deserializer the store was constructed with.
    pub closed spec fn spec_deserializer(self) -> D {
        self.deserializer
    }

    /// The stored contents of the stream with the given id, in commit
    /// order.  A stream that was never written to is the empty sequence.
    pub closed spec fn stream_seq(self, id: u64) -> Seq<S::SerializedEvent> {
        if self.events_by_stream_id@.contains_key(id) {
            self.events_by_stream_id@[id]@
        } else {
            Seq::empty()
        }
    }

    /// The stored representation of one new-shaped event, as
    /// specifications see it.
    pub open spec fn spec_serialized(self, event: T) -> S::SerializedEvent {
        self.spec_serializer().spec_serialize(OldOrNew::New(event))
    }

    /// Does `out_item` match `stored_item` as the result of one read?
    ///
    /// A read clones the stored item and deserializes the clone, so the
    /// returned item is the deserialization of some clone of what is
    /// stored.  For a stored type whose clone is proven faithful this
    /// collapses to `out_item == spec_deserialize(stored_item)`.
    pub open spec fn read_item_matches(
        self,
        stored_item: S::SerializedEvent,
        out_item: OldOrNew<T>,
    ) -> bool where S::SerializedEvent: Clone {
        exists|x: S::SerializedEvent|
            #[trigger] cloned(stored_item, x) && out_item
                == self.spec_deserializer().spec_deserialize(x)
    }

    /// Does `out_item` match `stored_item` as the result of one read that
    /// also resolves old revisions to the newest shape?
    pub open spec fn converted_item_matches(
        self,
        stored_item: S::SerializedEvent,
        out_item: T,
    ) -> bool where S::SerializedEvent: Clone, T::OldRevision: Convert<Event = T> {
        exists|x: S::SerializedEvent|
            #[trigger] cloned(stored_item, x) && out_item
                == self.spec_deserializer().spec_deserialize(x).spec_to_new()
    }

    /// Creates an empty store from a serialization pair.
    pub fn new(serialization: Serialization<S, D>) -> (store: Self)
        ensures
            forall|id: u64| store.stream_seq(id) == Seq::<S::SerializedEvent>::empty(),
            store.spec_serializer() == serialization.serializer,
            store.spec_deserializer() == serialization.deserializer,
    {
        let Serialization { serializer, deserializer } = serialization;
        Store { events_by_stream_id: HashMap::new(), serializer, deserializer }
    }

    /// Takes the addressed stream out of the map, leaving the map without
    /// the entry; a stream that was never written to comes out empty.
    fn take_stream(&mut self, id: u64) -> (stream: Stream<S::SerializedEvent>)
        ensures
            stream@ == old(self).stream_seq(id),
            final(self).events_by_stream_id@ == old(self).events_by_stream_id@.remove(id),
            final(self).serializer == old(self).serializer,
            final(self).deserializer == old(self).deserializer,
    {
        match self.events_by_stream_id.remove(&id) {
            Some(stream) => stream,
            None => Stream::new(),
        }
    }

    /// Puts a stream back under its id.
    fn put_stream(&mut self, id: u64, stream: Stream<S::SerializedEvent>)
        ensures
            final(self).stream_seq(id) == stream@,
            forall|other: u64| other != id ==> final(self).stream_seq(other) == old(
                self,
            ).stream_seq(other),
            final(self).serializer == old(self).serializer,
            final(self).deserializer == old(self).deserializer,
    {
        self.events_by_stream_id.insert(id, stream);
    }

    /// Commits either an old or a new event revision to the addressed
    /// stream, given the provided condition holds.
    ///
    /// On success the event is serialized and appended, and its assigned
    /// commit number -- the stream's length just before the append -- is
    /// returned; the commit succeeds if and only if the stream has room
    /// and the condition matches.  On failure the store is left exactly as
    /// it was.  Other streams are never touched.
    pub fn commit_old_or_new(&mut self, id: u64, event: OldOrNew<T>, condition: Condition) -> (r:
        Result<CommitNumber, CommitError>)
        ensures
            r is Ok <==> commit_allowed(old(self).stream_seq(id).len(), condition),
            r matches Ok(n) ==> n.0 == old(self).stream_seq(id).len() && final(self).stream_seq(id)
                == old(self).stream_seq(id).push(
                old(self).spec_serializer().spec_serialize(event),
            ),
            r matches Err(e) ==> final(self).stream_seq(id) == old(self).stream_seq(id)
                && e.spec_kind() == refusal_kind(old(self).stream_seq(id).len(), condition),
            forall|other: u64| other != id ==> final(self).stream_seq(other) == old(
                self,
            ).stream_seq(other),
            final(self).spec_serializer() == old(self).spec_serializer(),
            final(self).spec_deserializer() == old(self).spec_deserializer(),
    {
        let serialized = self.serializer.serialize(event);
        let mut stream = self.take_stream(id);
        let r = stream.commit_old_or_new(serialized, condition);
        self.put_stream(id, stream);
        r
    }

    /// Commits an ordered batch of new-shaped events to the addressed
    /// stream, given the provided condition holds.
    ///
    /// The batch is atomic: either every event is serialized and
    /// appended, in order, or none is.  The condition is checked against
    /// the commit number assigned to the first event of the batch, which
    /// is returned on success.  An empty batch is a no-op: it returns no
    /// commit number and never touches the condition check.
    pub fn commit_many(&mut self, id: u64, events: Vec<T>, condition: Condition) -> (r: Result<
        Option<CommitNumber>,
        CommitError,
    >)
        ensures
            events@.len() == 0 ==> (r matches Ok(n) && n is None && final(self).stream_seq(id)
                == old(self).stream_seq(id)),
            events@.len() > 0 ==> {
                &&& r is Ok <==> commit_allowed(old(self).stream_seq(id).len(), condition)
                &&& (r matches Ok(n) ==> n matches Some(first) && first.0 == old(self).stream_seq(
                    id,
                ).len() && final(self).stream_seq(id) == old(self).stream_seq(id)
                    + events@.map_values(|e: T| old(self).spec_serialized(e)))
                &&& (r matches Err(e) ==> final(self).stream_seq(id) == old(self).stream_seq(id)
                    && e.spec_kind() == refusal_kind(old(self).stream_seq(id).len(), condition))
            },
            forall|other: u64| other != id ==> final(self).stream_seq(other) == old(
                self,
            ).stream_seq(other),
            final(self).spec_serializer() == old(self).spec_serializer(),
            final(self).spec_deserializer() == old(self).spec_deserializer(),
    {
        let ghost orig_events = events@;
        let ghost me = *self;
        let mut serialized: Vec<S::SerializedEvent> = Vec::new();
        let mut rest = events;
        while rest.len() > 0
            invariant
                *self == me,
                rest@.len() <= orig_events.len(),
                rest@ == orig_events.skip(orig_events.len() - rest@.len()),
                serialized@ == orig_events.take(orig_events.len() - rest@.len()).map_values(
                    |e: T| me.spec_serialized(e),
                ),
            decreases rest.len(),
        {
            let ghost done = orig_events.len() - rest@.len();
            let event = rest.remove(0);
            serialized.push(self.serializer.serialize(OldOrNew::New(event)));
            proof {
                assert(orig_events.take(done + 1) =~= orig_events.take(done).push(
                    orig_events[done],
                ));
                assert(serialized@ =~= orig_events.take(done + 1).map_values(
                    |e: T| me.spec_serialized(e),
                ));
                assert(rest@ =~= orig_events.skip(done + 1));
            }
        }
        proof {
            assert(orig_events.take(orig_events.len() as int) =~= orig_events);
        }
        let mut stream = self.take_stream(id);
        let r = stream.commit_many(serialized, condition);
        self.put_stream(id, stream);
        r
    }

    /// Reads events from the addressed stream, exactly as stored: each
    /// returned item is the deserialization of one stored item, still
    /// old-shaped if an old revision was committed.
    ///
    /// The starting position is resolved against the stream; if it does
    /// not exist -- including reading `Last` on an empty or never-written
    /// stream -- the read fails with [`read::ErrorKind::CommitNotFound`],
    /// and that is the only way it can fail.  The result is a
    /// point-in-time snapshot in walk order.
    pub fn read_unconverted(&self, id: u64, options: Options) -> (r: Result<
        Vec<OldOrNew<T>>,
        ReadError,
    >) where S::SerializedEvent: Clone
        ensures
            r is Ok <==> options.start_exists(self.stream_seq(id).len() as int),
            r matches Err(e) ==> e.spec_kind() == read::ErrorKind::CommitNotFound,
            r matches Ok(out) ==> {
                let stored = self.stream_seq(id);
                &&& out@.len() == options.count(stored.len() as int)
                &&& forall|i: int|
                    0 <= i < out@.len() ==> #[trigger] self.read_item_matches(
                        stored[options.selected(stored.len() as int, i)],
                        out@[i],
                    )
            },
    {
        let stored = match self.events_by_stream_id.get(&id) {
            Some(stream) => stream.read_unconverted(options)?,
            None => {
                return Err(ReadError { kind: read::ErrorKind::CommitNotFound });
            }
        };
        let ghost stored_seq = self.stream_seq(id);
        let ghost raw = stored@;
        let mut out: Vec<OldOrNew<T>> = Vec::new();
        let mut rest = stored;
        while rest.len() > 0
            invariant
                rest@.len() <= raw.len(),
                rest@ == raw.skip(raw.len() - rest@.len()),
                out@.len() == raw.len() - rest@.len(),
                raw.len() == options.count(stored_seq.len() as int),
                forall|i: int|
                    0 <= i < raw.len() ==> cloned(
                        stored_seq[options.selected(stored_seq.len() as int, i)],
                        #[trigger] raw[i],
                    ),
                forall|i: int|
                    0 <= i < out@.len() ==> #[trigger] self.read_item_matches(
                        stored_seq[options.selected(stored_seq.len() as int, i)],
                        out@[i],
                    ),
            decreases rest.len(),
        {
            let ghost done = raw.len() - rest@.len();
            let item = rest.remove(0);
            proof {
                assert(item == raw[done]);
            }
            out.push(self.deserializer.deserialize(item));
            proof {
                assert(rest@ =~= raw.skip(done + 1));
                assert(self.read_item_matches(
                    stored_seq[options.selected(stored_seq.len() as int, done)],
                    out@[done],
                )) by {
                    assert(cloned(
                        stored_seq[options.selected(stored_seq.len() as int, done)],
                        raw[done],
                    ));
                    assert(out@[done] == self.spec_deserializer().spec_deserialize(raw[done]));
                }
            }
        }
        Ok(out)
    }

    /// Reads events from the addressed stream, resolving each old-shaped
    /// item to the newest shape.
    ///
    /// Same as [`Store::read_unconverted`], but every returned event has
    /// been passed through the conversion chain.
    pub fn read(&self, id: u64, options: Options) -> (r: Result<Vec<T>, ReadError>) where
        S::SerializedEvent: Clone,
        T::OldRevision: Convert<Event = T>,

        requires
            conversion_laws_hold::<T::OldRevision>(),
        ensures
            r is Ok <==> options.start_exists(self.stream_seq(id).len() as int),
            r matches Err(e) ==> e.spec_kind() == read::ErrorKind::CommitNotFound,
            r matches Ok(out) ==> {
                let stored = self.stream_seq(id);
                &&& out@.len() == options.count(stored.len() as int)
                &&& forall|i: int|
                    0 <= i < out@.len() ==> #[trigger] self.converted_item_matches(
                        stored[options.selected(stored.len() as int, i)],
                        out@[i],
                    )
            },
    {
        let unconverted = self.read_unconverted(id, options)?;
        let ghost stored_seq = self.stream_seq(id);
        let ghost raw = unconverted@;
        let mut out: Vec<T> = Vec::new();
        let mut rest = unconverted;
        while rest.len() > 0
            invariant
                conversion_laws_hold::<T::OldRevision>(),
                rest@.len() <= raw.len(),
                rest@ == raw.skip(raw.len() - rest@.len()),
                out@.len() == raw.len() - rest@.len(),
                raw.len() == options.count(stored_seq.len() as int),
                forall|i: int|
                    0 <= i < raw.len() ==> #[trigger] self.read_item_matches(
                        stored_seq[options.selected(stored_seq.len() as int, i)],
                        raw[i],
                    ),
                forall|i: int|
                    0 <= i < out@.len() ==> #[trigger] self.converted_item_matches(
                        stored_seq[options.selected(stored_seq.len() as int, i)],
                        out@[i],
                    ),
            decreases rest.len(),
        {
            let ghost done = raw.len() - rest@.len();
            let item = rest.remove(0);
            proof {
                assert(item == raw[done]);
            }
            out.push(item.to_new());
            proof {
                assert(rest@ =~= raw.skip(done + 1));
                assert(self.converted_item_matches(
                    stored_seq[options.selected(stored_seq.len() as int, done)],
                    out@[done],
                )) by {
                    let ghost stored_item = stored_seq[options.selected(
                        stored_seq.len() as int,
                        done,
                    )];
                    assert(self.read_item_matches(stored_item, raw[done]));
                    let x = choose|x: S::SerializedEvent|
                        #[trigger] cloned(stored_item, x) && raw[done]
                            == self.spec_deserializer().spec_deserialize(x);
                    assert(out@[done] == self.spec_deserializer().spec_deserialize(
                        x,
                    ).spec_to_new());
                }
            }
        }
        Ok(out)
    }

    /// Reads all events of the addressed stream, from first to last, each
    /// resolved to the newest shape.
    ///
    /// Fails with [`read::ErrorKind::CommitNotFound`] if and only if the
    /// stream is empty (commit number 0 does not exist yet); otherwise the
    /// whole stream comes back in commit order.
    pub fn read_all(&self, id: u64) -> (r: Result<Vec<T>, ReadError>) where
        S::SerializedEvent: Clone,
        T::OldRevision: Convert<Event = T>,

        requires
            conversion_laws_hold::<T::OldRevision>(),
        ensures
            r is Ok <==> self.stream_seq(id).len() > 0,
            r matches Err(e) ==> e.spec_kind() == read::ErrorKind::CommitNotFound,
            r matches Ok(out) ==> {
                let stored = self.stream_seq(id);
                &&& out@.len() == stored.len()
                &&& forall|i: int|
                    0 <= i < out@.len() ==> #[trigger] self.converted_item_matches(
                        stored[i],
                        out@[i],
                    )
            },
    {
        let options = Options {
            position: read::Position::First,
            direction: read::Direction::Forward,
            limit: None,
        };
        let r = self.read(id, options);
        proof {
            let stored = self.stream_seq(id);
            if let Ok(out) = &r {
                assert(options.count(stored.len() as int) == stored.len());
                assert forall|i: int| 0 <= i < out@.len() implies #[trigger] self.converted_item_matches(
                    stored[i],
                    out@[i],
                ) by {
                    assert(options.selected(stored.len() as int, i) == i);
                    assert(self.converted_item_matches(
                        stored[options.selected(stored.len() as int, i)],
                        out@[i],
                    ));
                }
            }
        }
        r
    }

    /// Commits a new-shaped event to the addressed stream, given the
    /// provided condition holds.
    ///
    /// On success the event is serialized and appended, and its assigned
    /// commit number is returned; the commit succeeds if and only if the
    /// stream has room and the condition matches.  On failure the store
    /// is left exactly as it was.
    pub fn commit(&mut self, id: u64, event: T, condition: Condition) -> (r: Result<
        CommitNumber,
        CommitError,
    >)
        ensures
            r is Ok <==> commit_allowed(old(self).stream_seq(id).len(), condition),
            r matches Ok(n) ==> n.0 == old(self).stream_seq(id).len() && final(self).stream_seq(id)
                == old(self).stream_seq(id).push(old(self).spec_serialized(event)),
            r matches Err(e) ==> final(self).stream_seq(id) == old(self).stream_seq(id)
                && e.spec_kind() == refusal_kind(old(self).stream_seq(id).len(), condition),
            forall|other: u64| other != id ==> final(self).stream_seq(other) == old(
                self,
            ).stream_seq(other),
            final(self).spec_serializer() == old(self).spec_serializer(),
            final(self).spec_deserializer() == old(self).spec_deserializer(),
    {
        self.commit_old_or_new(id, OldOrNew::New(event), condition)
    }

    /// Commits a new-shaped event to the addressed stream
    /// unconditionally.
    ///
    /// The commit succeeds if and only if the stream has room; the
    /// assigned commit number, the stream's length just before the
    /// append, is returned.
    pub fn commit_unconditionally(&mut self, id: u64, event: T) -> (r: Result<
        CommitNumber,
        CommitError,
    >)
        ensures
            r is Ok <==> old(self).stream_seq(id).len() <= u32::MAX,
            r matches Ok(n) ==> n.0 == old(self).stream_seq(id).len() && final(self).stream_seq(id)
                == old(self).stream_seq(id).push(old(self).spec_serialized(event)),
            r matches Err(e) ==> final(self).stream_seq(id) == old(self).stream_seq(id)
                && e.spec_kind() == commit::ErrorKind::StreamFull,
            forall|other: u64| other != id ==> final(self).stream_seq(other) == old(
                self,
            ).stream_seq(other),
            final(self).spec_serializer() == old(self).spec_serializer(),
            final(self).spec_deserializer() == old(self).spec_deserializer(),
    {
        self.commit(id, event, Condition::Unconditional)
    }

    /// Commits a new-shaped event to the addressed stream with the
    /// condition that it be assigned the provided commit number.
    ///
    /// This is the optimistic-concurrency workflow: the commit succeeds
    /// if and only if `number` is exactly the stream's current length, and
    /// otherwise fails with `ConditionNotMet`, leaving the store
    /// unchanged.
    pub fn commit_as_number(&mut self, id: u64, event: T, number: CommitNumber) -> (r: Result<
        CommitNumber,
        CommitError,
    >)
        ensures
            r is Ok <==> number.0 == old(self).stream_seq(id).len(),
            r matches Ok(n) ==> n == number && final(self).stream_seq(id) == old(self).stream_seq(
                id,
            ).push(old(self).spec_serialized(event)),
            r matches Err(e) ==> final(self).stream_seq(id) == old(self).stream_seq(id)
                && e.spec_kind() == refusal_kind(
                old(self).stream_seq(id).len(),
                Condition::AssignCommitNumber(number),
            ),
            forall|other: u64| other != id ==> final(self).stream_seq(other) == old(
                self,
            ).stream_seq(other),
            final(self).spec_serializer() == old(self).spec_serializer(),
            final(self).spec_deserializer() == old(self).spec_deserializer(),
    {
        self.commit(id, event, Condition::AssignCommitNumber(number))
    }

    /// Commits an ordered batch of events to the addressed stream
    /// unconditionally.
    ///
    /// A non-empty batch succeeds if and only if the stream has room,
    /// appending every event atomically; an empty batch is a no-op
    /// returning no commit number.
    pub fn commit_many_unconditionally(&mut self, id: u64, events: Vec<T>) -> (r: Result<
        Option<CommitNumber>,
        CommitError,
    >)
        ensures
            events@.len() == 0 ==> (r matches Ok(n) && n is None && final(self).stream_seq(id)
                == old(self).stream_seq(id)),
            events@.len() > 0 ==> {
                &&& r is Ok <==> old(self).stream_seq(id).len() <= u32::MAX
                &&& (r matches Ok(n) ==> n matches Some(first) && first.0 == old(self).stream_seq(
                    id,
                ).len() && final(self).stream_seq(id) == old(self).stream_seq(id)
                    + events@.map_values(|e: T| old(self).spec_serialized(e)))
                &&& (r matches Err(e) ==> final(self).stream_seq(id) == old(self).stream_seq(id)
                    && e.spec_kind() == commit::ErrorKind::StreamFull)
            },
            forall|other: u64| other != id ==> final(self).stream_seq(other) == old(
                self,
            ).stream_seq(other),
            final(self).spec_serializer() == old(self).spec_serializer(),
            final(self).spec_deserializer() == old(self).spec_deserializer(),
    {
        self.commit_many(id, events, Condition::Unconditional)
    }

    /// Commits an ordered batch of events to the addressed stream with
    /// the condition that the first event of the batch be assigned the
    /// provided commit number.
    pub fn commit_many_with_number(
        &mut self,
        id: u64,
        events: Vec<T>,
        number: CommitNumber,
    ) -> (r: Result<Option<CommitNumber>, CommitError>)
        ensures
            events@.len() == 0 ==> (r matches Ok(n) && n is None && final(self).stream_seq(id)
                == old(self).stream_seq(id)),
            events@.len() > 0 ==> {
                &&& r is Ok <==> number.0 == old(self).stream_seq(id).len()
                &&& (r matches Ok(n) ==> n == Some(number) && final(self).stream_seq(id) == old(
                    self,
                ).stream_seq(id) + events@.map_values(|e: T| old(self).spec_serialized(e)))
                &&& (r matches Err(e) ==> final(self).stream_seq(id) == old(self).stream_seq(id)
                    && e.spec_kind() == refusal_kind(
                    old(self).stream_seq(id).len(),
                    Condition::AssignCommitNumber(number),
                ))
            },
            forall|other: u64| other != id ==> final(self).stream_seq(other) == old(
                self,
            ).stream_seq(other),
            final(self).spec_serializer() == old(self).spec_serializer(),
            final(self).spec_deserializer() == old(self).spec_deserializer(),
    {
        self.commit_many(id, events, Condition::AssignCommitNumber(number))
    }
}

/// Law (monotonic, gap-free commit numbers): starting from an empty
/// stream, a run of successful commits assigns exactly the numbers
/// `0, 1, 2, ...`, in commit order.
///
/// The commit contracts state that a successful commit appends its event
/// and returns the stream's length just before the append.  So after the
/// first `k` events of a run have been committed the stream is exactly
/// `events.take(k)`, and the number assigned to the next event is its
/// length: `k` itself.  No number is skipped and none repeats; in
/// particular two commits that race on the same stream receive the two
/// distinct, consecutive numbers `k` and `k + 1`, whichever order the
/// exclusive append step serializes them in.
pub proof fn lemma_commit_numbers_gap_free<E>(events: Seq<E>, k: int)
    requires
        0 <= k < events.len(),
    ensures
        events.take(k).len() == k,
        events.take(k + 1).len() == k + 1,
        events.take(k + 1) == events.take(k).push(events[k]),
{
    assert(events.take(k + 1) =~= events.take(k).push(events[k]));
}

} // verus!
