//! The serialization plug-point.
//!
//! A store is parameterized by a matched pair of conversion functions that
//! turn a domain event (or a still-old revision of one) into its stored
//! representation and back.  The store core is agnostic to the concrete
//! stored format.

use vstd::prelude::*;

use crate::event::Event;
use crate::revision::OldOrNew;

verus! {

/// Turns events into their stored representation.
pub trait Serializer: Sized {
    /// The type of events being serialized.
    type Event: Event;

    /// The stored representation of an event.
    type SerializedEvent;

    /// What [`Serializer::serialize`] returns, as specifications see it.
    ///
    /// The default says nothing; a verified implementor overrides it.
    open spec fn spec_serialize(&self, event: OldOrNew<Self::Event>) -> Self::SerializedEvent {
        arbitrary()
    }

    /// Serializes one event, current or old-shaped.
    fn serialize(&self, event: OldOrNew<Self::Event>) -> (r: Self::SerializedEvent)
        ensures
            r == self.spec_serialize(event),
    ;
}

/// Turns stored representations back into events.
pub trait Deserializer: Sized {
    /// The type of events being deserialized.
    type Event: Event;

    /// The stored representation of an event.
    type SerializedEvent;

    /// What [`Deserializer::deserialize`] returns, as specifications see
    /// it.
    ///
    /// The default says nothing; a verified implementor overrides it.
    open spec fn spec_deserialize(&self, stored: Self::SerializedEvent) -> OldOrNew<Self::Event> {
        arbitrary()
    }

    /// Deserializes one stored item, yielding the event exactly as it was
    /// stored: still old-shaped if an old revision was committed.
    fn deserialize(&self, stored: Self::SerializedEvent) -> (r: OldOrNew<Self::Event>)
        ensures
            r == self.spec_deserialize(stored),
    ;
}

/// A matched serializer/deserializer pair, passed to a store at
/// construction.
pub struct Serialization<S, D> where
    S: Serializer,
    D: Deserializer<Event = S::Event, SerializedEvent = S::SerializedEvent>,
 {
    /// The write-side half of the pair.
    pub serializer: S,
    /// The read-side half of the pair.
    pub deserializer: D,
}

/// The no-op serializer: events are stored as themselves.
///
/// This is the default, reference choice of stored representation for the
/// in-memory store, and the identity contracts below are what make its
/// store contracts collapse to statements about the events themselves.
pub struct Noop<T: Event> {
    marker: core::marker::PhantomData<T>,
}

impl<T: Event> Noop<T> {
    /// Creates the no-op serializer.
    pub fn new() -> Self {
        Noop { marker: core::marker::PhantomData }
    }
}

impl<T: Event> Clone for Noop<T> {
    fn clone(&self) -> Self {
        Noop { marker: core::marker::PhantomData }
    }
}

impl<T: Event> Serializer for Noop<T> {
    type Event = T;

    type SerializedEvent = OldOrNew<T>;

    open spec fn spec_serialize(&self, event: OldOrNew<T>) -> OldOrNew<T> {
        event
    }

    fn serialize(&self, event: OldOrNew<T>) -> OldOrNew<T> {
        event
    }
}

impl<T: Event> Deserializer for Noop<T> {
    type Event = T;

    type SerializedEvent = OldOrNew<T>;

    open spec fn spec_deserialize(&self, stored: OldOrNew<T>) -> OldOrNew<T> {
        stored
    }

    fn deserialize(&self, stored: OldOrNew<T>) -> OldOrNew<T> {
        stored
    }
}

/// Law: the no-op pair is matched.  Deserializing what was serialized
/// gives back exactly the event that was stored.
pub proof fn lemma_noop_round_trip<T: Event>(pair: Noop<T>, event: OldOrNew<T>)
    ensures
        pair.spec_deserialize(pair.spec_serialize(event)) == event,
{
}

/// The serialization pair that stores events as themselves.
pub fn no_serialization<T: Event>() -> Serialization<Noop<T>, Noop<T>> {
    Serialization { serializer: Noop::new(), deserializer: Noop::new() }
}

} // verus!
