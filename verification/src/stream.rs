//! An owned, append-only event stream with timestamps.
//!
//! This is the simplest shape of event log: one value that owns its
//! committed events outright, stamping each with a commit number and a
//! time.  The in-memory store ([`crate::store::inmem`]) is the shared,
//! multi-stream counterpart.

use vstd::pervasive::cloned;
use vstd::prelude::*;

use crate::commit_number::CommitNumber;
use crate::committed_event::CommittedEvent;
use crate::event::Event;
use crate::time::Time;

verus! {

/// Describes one kind of event stream: its id type, its event type and
/// its clock.
pub trait StreamDescription: Sized {
    /// The type identifying a stream.
    type Id: Clone;

    /// The type of events held within the stream.
    type Event: Event;

    /// The clock used to stamp committed events.
    type Time: Time;
}

/// An owned event stream.
///
/// Every committed event carries the commit number equal to its index in
/// the stream, starting from 0, with no gaps; that is an invariant of the
/// type.
pub struct Stream<T: StreamDescription> {
    id: T::Id,
    events: Vec<CommittedEvent<T>>,
}

impl<T: StreamDescription> Stream<T> {
    /// The committed events, in commit order, as specifications see them.
    pub closed spec fn spec_events(self) -> Seq<CommittedEvent<T>> {
        self.events@
    }

    /// The stream's id, as specifications see it.
    pub closed spec fn spec_id(self) -> T::Id {
        self.id
    }

    /// Well-formedness: commit numbers are exactly the indices.  The
    /// first event has number 0 and each later one the next number,
    /// without gaps.  Constructors establish this and every method
    /// preserves it.
    pub closed spec fn well_formed(self) -> bool {
        &&& self.events@.len() <= u32::MAX
        &&& forall|i: int|
            0 <= i < self.events@.len() ==> (#[trigger] self.events@[i]).commit_number.0 == i
    }

    /// Creates an empty event stream with the given id.
    pub fn new(id: T::Id) -> (s: Self)
        ensures
            s.spec_id() == id,
            s.spec_events() == Seq::<CommittedEvent<T>>::empty(),
            s.well_formed(),
    {
        Stream { id, events: Vec::new() }
    }

    /// Returns the stream's id.
    pub fn id(&self) -> (r: &T::Id)
        ensures
            *r == self.spec_id(),
    {
        &self.id
    }

    /// Commits the given event into the stream.
    ///
    /// The event is stamped with the next commit number -- the stream's
    /// length just before the append -- and the current time, and a
    /// reference to the committed record is returned.
    pub fn commit(&mut self, event: T::Event) -> (r: &CommittedEvent<T>)
        requires
            old(self).well_formed(),
            old(self).spec_events().len() < u32::MAX,
        ensures
            final(self).well_formed(),
            final(self).spec_id() == old(self).spec_id(),
            final(self).spec_events().len() == old(self).spec_events().len() + 1,
            final(self).spec_events().take(old(self).spec_events().len() as int) == old(
                self,
            ).spec_events(),
            *r == final(self).spec_events().last(),
            r.event == event,
            r.commit_number.0 == old(self).spec_events().len(),
            cloned(old(self).spec_id(), r.id),
    {
        let number = CommitNumber(self.events.len() as u32);
        let committed = CommittedEvent {
            id: self.id.clone(),
            commit_number: number,
            time: T::Time::now(),
            event,
        };
        self.events.push(committed);
        proof {
            assert(self.events@.take(self.events@.len() - 1) =~= old(self).events@);
        }
        let n = self.events.len();
        &self.events[n - 1]
    }

    /// Commits the given events into the stream, in order.
    pub fn commit_array(&mut self, events: Vec<T::Event>)
        requires
            old(self).well_formed(),
            old(self).spec_events().len() + events@.len() <= u32::MAX,
        ensures
            final(self).well_formed(),
            final(self).spec_id() == old(self).spec_id(),
            final(self).spec_events().len() == old(self).spec_events().len() + events@.len(),
            final(self).spec_events().take(old(self).spec_events().len() as int) == old(
                self,
            ).spec_events(),
            forall|i: int|
                0 <= i < events@.len() ==> (#[trigger] final(self).spec_events()[old(
                    self,
                ).spec_events().len() + i]).event == events@[i],
    {
        let ghost orig = *self;
        let ghost batch = events@;
        let mut rest = events;
        while rest.len() > 0
            invariant
                self.well_formed(),
                rest@.len() <= batch.len(),
                rest@ == batch.skip(batch.len() - rest@.len()),
                self.spec_id() == orig.spec_id(),
                self.spec_events().len() == orig.spec_events().len() + batch.len() - rest@.len(),
                self.spec_events().len() + rest@.len() <= u32::MAX,
                self.spec_events().take(orig.spec_events().len() as int) == orig.spec_events(),
                forall|i: int|
                    0 <= i < batch.len() - rest@.len() ==> (#[trigger] self.spec_events()[orig.spec_events().len()
                        + i]).event == batch[i],
            decreases rest.len(),
        {
            let ghost done = batch.len() - rest@.len();
            let ghost before = self.spec_events();
            let event = rest.remove(0);
            self.commit(event);
            proof {
                assert(rest@ =~= batch.skip(done + 1));
                assert(self.spec_events().take(orig.spec_events().len() as int)
                    =~= before.take(orig.spec_events().len() as int));
                assert forall|i: int| 0 <= i < done + 1 implies (#[trigger] self.spec_events()[orig.spec_events().len()
                    + i]).event == batch[i] by {
                    if i < done {
                        assert(self.spec_events()[orig.spec_events().len() + i] == before[orig.spec_events().len()
                            + i]);
                    }
                }
            }
        }
    }

    /// Returns the committed events within the stream, in commit order.
    pub fn events(&self) -> (r: &[CommittedEvent<T>])
        ensures
            r@ == self.spec_events(),
    {
        self.events.as_slice()
    }

    /// Same as [`Stream::events`], but takes ownership of the events.
    pub fn take_events(self) -> (r: Vec<CommittedEvent<T>>)
        ensures
            r@ == self.spec_events(),
    {
        self.events
    }

    /// Returns the committed event with commit number `commit_number`.
    ///
    /// By the stream invariant that is the event at the index the number
    /// names, which the caller must know to be committed.
    pub fn index(&self, commit_number: CommitNumber) -> (r: &CommittedEvent<T>)
        requires
            self.well_formed(),
            commit_number.0 < self.spec_events().len(),
        ensures
            *r == self.spec_events()[commit_number.0 as int],
            r.commit_number == commit_number,
    {
        &self.events[commit_number.0 as usize]
    }

    /// Returns the half-open range of commit numbers committed within the
    /// stream, as its first number and one past its last.
    ///
    /// By the stream invariant this is `0` up to the stream's length; an
    /// empty stream returns the empty range.
    pub fn commit_numbers_range(&self) -> (r: (CommitNumber, CommitNumber))
        requires
            self.well_formed(),
        ensures
            r.0.0 == 0,
            r.1.0 == self.spec_events().len(),
    {
        if self.events.len() == 0 {
            return (CommitNumber(0), CommitNumber(0));
        }
        let n = self.events.len();
        let first = self.events[0].commit_number;
        let last = self.events[n - 1].commit_number;
        (first, CommitNumber(last.0 + 1))
    }
}

} // verus!
