//! Event revisioning.
//!
//! An event's on-disk shape changes over a system's lifetime.  Each shape of
//! a logical event variant is tagged with a stable identity, its *revision
//! value*.  Old shapes remain decodable: they live in a dedicated
//! old-revision type and are upgraded, one step at a time, into the newest
//! shape.
//!
//! The ghost members of the traits here have default bodies that say
//! nothing, so an implementor outside the verifier's reach only writes the
//! executable methods.  A verified implementor overrides the ghost members
//! and proves the law predicates [`revision_laws_hold`] and
//! [`conversion_laws_hold`], which is what the conversion entry points ask
//! of their callers.

use vstd::pervasive::cloned;
use vstd::prelude::*;

use crate::event::Event;

verus! {

/// A type whose instances have revisions.
///
/// This trait is usually implemented for an enum type, with each enum
/// variant assigned a unique revision value.
pub trait Revision: Sized + Clone {
    /// The type of revision values: an identity that uniquely distinguishes
    /// one shape of a logical event variant from every other shape.
    type Value: PartialEq;

    /// The revision value of this instance, as specifications see it.
    ///
    /// The default says nothing; a verified implementor overrides it.
    open spec fn rev(&self) -> Self::Value {
        arbitrary()
    }

    /// The set of all revision values represented by the type, as
    /// specifications see it.
    ///
    /// The default says nothing; a verified implementor overrides it.
    open spec fn rev_set() -> Set<Self::Value> {
        arbitrary()
    }

    /// Returns the revision value of this instance.
    fn revision(&self) -> (v: Self::Value)
        ensures
            v == self.rev(),
    ;

    /// Returns all revision values represented by the type, without
    /// duplicates.
    ///
    /// This is a pure function of the type, computed per call but identical
    /// across calls.
    fn revision_set() -> (s: Vec<Self::Value>)
        ensures
            s@.to_set() == Self::rev_set(),
            s@.no_duplicates(),
    ;

}

/// The revision law, for one value: its revision is one of the revision
/// values defined by its type.
pub open spec fn revision_in_set<R: Revision>(v: R) -> bool {
    R::rev_set().contains(v.rev())
}

/// Law: the revision value of an instance is always one of the revision
/// values defined by its type.
pub open spec fn revision_laws_hold<R: Revision>() -> bool {
    forall|v: R| #[trigger] revision_in_set(v)
}

/// Holds either a new event or an old revision of one.
pub enum OldOrNew<T: Event> {
    Old(<T as Event>::OldRevision),
    New(T),
}

impl<T: Event> Clone for OldOrNew<T> where T::OldRevision: Clone {
    /// Clones the held value.
    fn clone(&self) -> (r: Self)
        ensures
            match (self, r) {
                (OldOrNew::Old(o), OldOrNew::Old(ro)) => cloned(*o, ro),
                (OldOrNew::New(n), OldOrNew::New(rn)) => cloned(*n, rn),
                _ => false,
            },
    {
        match self {
            OldOrNew::Old(old) => OldOrNew::Old(old.clone()),
            OldOrNew::New(new) => OldOrNew::New(new.clone()),
        }
    }
}

impl<T: Event> OldOrNew<T> where T::OldRevision: Convert<Event = T> {
    /// The newest shape of the held event, as specifications see it: a held
    /// new event itself, or the newest shape denoted by a held old revision.
    pub open spec fn spec_to_new(self) -> T {
        match self {
            OldOrNew::Old(old) => old.current(),
            OldOrNew::New(new) => new,
        }
    }

    /// Converts the held value to the newest shape.
    pub fn to_new(self) -> (n: T)
        requires
            conversion_laws_hold::<T::OldRevision>(),
        ensures
            n == self.spec_to_new(),
    {
        match self {
            OldOrNew::Old(old) => convert_until_new(old),
            OldOrNew::New(new) => new,
        }
    }
}

impl<T: Event> OldOrNew<T> {
    /// Borrows the held value.
    pub fn borrow(&self) -> (r: OldOrNewRef<'_, T>)
        ensures
            match r {
                OldOrNewRef::Old(old) => *self matches OldOrNew::Old(o) && old == o,
                OldOrNewRef::New(new) => *self matches OldOrNew::New(n) && new == n,
            },
    {
        match self {
            OldOrNew::Old(old) => OldOrNewRef::Old(old),
            OldOrNew::New(new) => OldOrNewRef::New(new),
        }
    }
}

/// Holds either a reference to a new event or to an old revision of one.
pub enum OldOrNewRef<'a, T: Event> {
    Old(&'a <T as Event>::OldRevision),
    New(&'a T),
}

impl<'a, T: Event> OldOrNewRef<'a, T> where T::OldRevision: Clone {
    /// Clones the referenced value into an owned [`OldOrNew`].
    pub fn to_owned(self) -> (r: OldOrNew<T>)
        ensures
            match self {
                OldOrNewRef::Old(old) => r matches OldOrNew::Old(ro) && cloned(*old, ro),
                OldOrNewRef::New(new) => r matches OldOrNew::New(rn) && cloned(*new, rn),
            },
    {
        match self {
            OldOrNewRef::Old(old) => OldOrNew::Old(old.clone()),
            OldOrNewRef::New(new) => OldOrNew::New(new.clone()),
        }
    }
}

/// A type whose instances can be converted to newer revisions of themselves.
///
/// The implementor is the old-revision type of exactly one event type.
/// Each conversion step must make strictly measurable progress toward the
/// newest shape -- [`Convert::chain_len`] is the measure, and
/// [`conversion_laws_hold`] the obligation -- which is what makes
/// [`convert_until_new`] provably terminating.
pub trait Convert: Revision {
    /// The event type to which this old revision can be converted.
    type Event: Event<OldRevision = Self, Value = <Self as Revision>::Value>;

    /// How many conversion steps this value is away from the newest shape,
    /// at most.
    ///
    /// The default says nothing; a verified implementor overrides it.
    open spec fn chain_len(&self) -> nat {
        arbitrary()
    }

    /// The newest shape this old revision denotes, as specifications see
    /// it: the event that repeated conversion eventually produces.
    ///
    /// The default says nothing; a verified implementor overrides it.
    open spec fn current(self) -> Self::Event {
        arbitrary()
    }

    /// What [`Convert::convert`] returns, as specifications see it.
    ///
    /// The default says nothing; a verified implementor overrides it.
    open spec fn spec_convert(self) -> OldOrNew<Self::Event> {
        arbitrary()
    }

    /// Converts this instance to a newer one: either a strictly newer old
    /// revision, or the newest shape itself.
    ///
    /// Use [`convert_until_new`] to convert as many times as needed to
    /// acquire the newest shape.
    fn convert(self) -> (r: OldOrNew<Self::Event>)
        ensures
            r == self.spec_convert(),
    ;
}

/// The conversion law, for one value: one conversion step yields either a
/// strictly newer old revision denoting the same newest shape, or that
/// newest shape itself.
pub open spec fn conversion_step_ok<C: Convert>(c: C) -> bool {
    match c.spec_convert() {
        OldOrNew::Old(o) => o.chain_len() < c.chain_len() && o.current() == c.current(),
        OldOrNew::New(n) => n == c.current(),
    }
}

/// Law: every conversion step makes progress and preserves the denoted
/// newest shape.  The strict decrease of [`Convert::chain_len`] is what
/// rules out an infinite conversion loop.
pub open spec fn conversion_laws_hold<C: Convert>() -> bool {
    forall|c: C| #[trigger] conversion_step_ok(c)
}

/// Converts an old revision as many times as needed until it reaches the
/// newest shape.
///
/// The conversion chain is walked by an explicit loop rather than by
/// recursion, so stack usage stays bounded regardless of chain depth.
/// The caller supplies the conversion laws; an implementor that does not
/// prove them must enforce by hand that every step yields a strictly
/// newer revision, or this loop would not terminate.
#[verifier::loop_isolation(false)]
pub fn convert_until_new<C: Convert>(old_revision: C) -> (n: C::Event)
    requires
        conversion_laws_hold::<C>(),
    ensures
        n == old_revision.current(),
{
    let ghost orig = old_revision;
    let mut cur = old_revision;
    loop
        invariant
            cur.current() == orig.current(),
        decreases cur.chain_len(),
    {
        proof {
            assert(conversion_step_ok(cur));
        }
        match cur.convert() {
            OldOrNew::Old(old) => {
                cur = old;
            }
            OldOrNew::New(new) => {
                return new;
            }
        }
    }
}

/// Law (round-trip conversion): fully converting any old-revision value
/// terminates -- witnessed by the `decreases` measure of
/// [`Convert::convert_until_new`] -- and produces a value whose revision
/// is a member of the current type's revision set.
pub proof fn lemma_conversion_in_revision_set<C: Convert>(o: C)
    requires
        conversion_laws_hold::<C>(),
        revision_laws_hold::<C::Event>(),
    ensures
        <C::Event as Revision>::rev_set().contains(o.current().rev()),
{
    assert(revision_in_set(o.current()));
}

/// Represents a revision with no variants.
///
/// Use this type as an event's [`Event::OldRevision`] to indicate that the
/// event is yet to have any old revisions.  Its only field is private and
/// the type offers no constructor, so no caller can ever hold a value of
/// it: all of its methods exist only to satisfy the trait contracts and
/// never execute.
pub struct Empty<T> {
    inner: T,
}

impl<T: Clone> Clone for Empty<T> {
    /// Never runs: no [`Empty`] value can be constructed.
    fn clone(&self) -> Self {
        Empty { inner: self.inner.clone() }
    }
}

impl<T: Event> Revision for Empty<T> {
    type Value = <T as Revision>::Value;

    closed spec fn rev(&self) -> Self::Value {
        self.inner.rev()
    }

    closed spec fn rev_set() -> Set<Self::Value> {
        Set::empty()
    }

    /// Never runs: no [`Empty`] value can be constructed.
    fn revision(&self) -> (v: Self::Value) {
        self.inner.revision()
    }

    /// There are no old revisions.
    fn revision_set() -> (s: Vec<Self::Value>) {
        Vec::new()
    }
}

impl<T: Event<OldRevision = Self>> Convert for Empty<T> {
    type Event = T;

    closed spec fn chain_len(&self) -> nat {
        0
    }

    closed spec fn current(self) -> T {
        self.inner
    }

    closed spec fn spec_convert(self) -> OldOrNew<T> {
        OldOrNew::New(self.inner)
    }

    /// Never runs: no [`Empty`] value can be constructed.
    fn convert(self) -> (r: OldOrNew<T>) {
        OldOrNew::New(self.inner)
    }
}

/// The sentinel old-revision type is lawful: its one conversion step
/// (which can never actually run) lands on the newest shape it denotes.
pub proof fn lemma_empty_conversion_lawful<T: Event<OldRevision = Empty<T>>>()
    ensures
        conversion_laws_hold::<Empty<T>>(),
{
    assert forall|c: Empty<T>| #[trigger] conversion_step_ok(c) by {
        assert(c.spec_convert() == OldOrNew::<T>::New(c.inner));
        assert(c.current() == c.inner);
    }
}

} // verus!
