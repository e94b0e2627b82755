//! An embeddable event-store core.
//!
//! Application code appends immutable facts ("events") to independent,
//! append-only logs ("streams") and reads them back.  The crate is built
//! around three pieces:
//!
//! * the revision model ([`revision`]), which lets old and new shapes of the
//!   same logical event coexist and be deterministically upgraded;
//! * the store contract ([`store`]), which defines optimistic-concurrency
//!   commits and position/direction-aware reads over a stream;
//! * an in-memory reference store ([`store::inmem`]) implementing that
//!   contract, with machine-checked proofs of its behaviour.

pub use commit_number::CommitNumber;
pub use committed_event::{CommittedEvent, Ref};
pub use entity::Entity;
pub use error::ErrorWithKind;
pub use event::{merge_revision_sets, revision_sets_intersect, Event};
pub use revision::Revision;
pub use serializer::{Deserializer, Serializer};
pub use stream::{Stream, StreamDescription};
pub use time::Time;
pub use types::SequenceNumber;
pub use version::Version;

mod commit_number;
mod committed_event;
mod entity;
mod error;
mod event;
pub mod pulse;
pub mod revision;
pub mod serializer;
pub mod store;
mod stream;
mod time;
mod types;
mod version;
