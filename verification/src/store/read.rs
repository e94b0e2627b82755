//! The read side of the store contract.

use vstd::prelude::*;

use crate::commit_number::CommitNumber;

verus! {

/// Position of an event within an event stream.
#[derive(Copy, Clone, PartialEq, Eq, Structural, Hash, Debug)]
pub enum Position {
    /// The position of the first event.
    First,
    /// The position of the last event.
    Last,
    /// The position of the event with the given commit number.
    Commit(CommitNumber),
}

/// The order in which events should be read from an event stream.
#[derive(Copy, Clone, PartialEq, Eq, Structural, Hash, Debug)]
pub enum Direction {
    /// Events are read from the starting position toward the newest event,
    /// inclusive of the last.
    Forward,
    /// Events are read from the starting position toward the oldest event,
    /// inclusive of the first.
    Backward,
}

/// Errors that might occur when reading events from a stream.
#[derive(Copy, Clone, PartialEq, Eq, Structural, Hash, Debug)]
pub enum ErrorKind {
    /// The resolved starting commit number does not exist in the stream.
    CommitNotFound,
    /// An unexpected, implementation-specific error occurred.
    Other,
}

/// Options for reading events from an event stream.
#[derive(Copy, Clone, PartialEq, Eq, Hash, Debug)]
pub struct Options {
    /// The position of the first event to read.
    pub position: Position,
    /// The direction in which events are read.
    pub direction: Direction,
    /// The maximum number of events to read.  If `None`, events are read
    /// until the first or last event is reached, depending on `direction`.
    pub limit: Option<usize>,
}

impl Options {
    /// The index, within a stream of `len` events, of the first event this
    /// read selects.  An index outside `[0, len)` means the starting
    /// position does not exist.
    pub open spec fn start_index(self, len: int) -> int {
        match self.position {
            Position::First => 0,
            Position::Last => len - 1,
            Position::Commit(n) => n.0 as int,
        }
    }

    /// Does the starting position exist within a stream of `len` events?
    ///
    /// Reading the last event of an empty stream resolves to index `-1`
    /// and therefore fails, as does reading any commit number at or past
    /// `len`.
    pub open spec fn start_exists(self, len: int) -> bool {
        0 <= self.start_index(len) < len
    }

    /// How many events, at most, the limit admits.
    pub open spec fn limit_of(self, len: int) -> int {
        match self.limit {
            Some(l) => l as int,
            None => len,
        }
    }

    /// How many events a read over a stream of `len` events returns: the
    /// events available in the chosen direction, capped by the limit.
    pub open spec fn count(self, len: int) -> int {
        let available = match self.direction {
            Direction::Forward => len - self.start_index(len),
            Direction::Backward => self.start_index(len) + 1,
        };
        if self.limit_of(len) <= available {
            self.limit_of(len)
        } else {
            available
        }
    }

    /// The index within the stream of the `i`-th event this read returns.
    pub open spec fn selected(self, len: int, i: int) -> int {
        match self.direction {
            Direction::Forward => self.start_index(len) + i,
            Direction::Backward => self.start_index(len) - i,
        }
    }
}

} // verus!
