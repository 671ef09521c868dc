//! Value types describing positions in an aggregate's event stream and
//! the optimistic-concurrency assertion attached to an append.

use vstd::prelude::*;

verus! {

/// A position in an aggregate's event stream: the number of events
/// persisted so far. Version 0 means "no events yet"; the first event
/// appended occupies version 1, and versions grow by one per event,
/// with no gaps and no reuse.
#[derive(Clone, Copy, Debug, PartialEq, Eq, Structural, Hash)]
pub struct Version(pub u64);

/// A read cursor: either the whole stream, or only what lies strictly
/// after a given version.
#[derive(Clone, Copy, Debug, PartialEq, Eq, Structural)]
pub enum Since {
    /// Read from the start of the stream.
    BeginningOfStream,
    /// Read only events whose version is strictly greater than this one.
    Version(Version),
}

impl Since {
    /// How many leading events of a stream the cursor skips.
    pub open spec fn cursor(self) -> nat {
        match self {
            Since::BeginningOfStream => 0,
            Since::Version(v) => v.0 as nat,
        }
    }
}

/// The state a writer asserts the stream is in when appending. The
/// store must reject the append if the assertion does not hold at the
/// moment the append is applied.
#[derive(Clone, Copy, Debug, PartialEq, Eq, Structural)]
pub enum Precondition {
    /// No constraint: append unconditionally.
    Always,
    /// The stream must not hold any event yet.
    NewStream,
    /// The stream must currently be at exactly this version.
    ExpectedVersion(Version),
}

impl Precondition {
    /// Whether a stream currently holding `current` events satisfies
    /// this assertion.
    pub open spec fn is_satisfied_by(self, current: nat) -> bool {
        match self {
            Precondition::Always => true,
            Precondition::NewStream => current == 0,
            Precondition::ExpectedVersion(v) => current == v.0 as nat,
        }
    }

    /// Evaluates the assertion against a stream currently at version
    /// `current`.
    pub fn check(&self, current: u64) -> (ok: bool)
        ensures
            ok == self.is_satisfied_by(current as nat),
    {
        match self {
            Precondition::Always => true,
            Precondition::NewStream => current == 0,
            Precondition::ExpectedVersion(v) => v.0 == current,
        }
    }
}

/// An immutable domain event paired with the version it occupies in
/// its stream.
#[derive(Clone, Copy, Debug, PartialEq, Eq)]
pub struct VersionedEvent<Event> {
    /// The position this event occupies in the stream.
    pub version: Version,
    /// The domain event itself.
    pub event: Event,
}

/// A point-in-time summary of an aggregate, paired with the version of
/// the last event it captures.
#[derive(Clone, Copy, Debug, PartialEq, Eq)]
pub struct VersionedSnapshot<Snapshot> {
    /// The stream version this snapshot summarizes up to and including.
    pub version: Version,
    /// The materialized aggregate state.
    pub snapshot: Snapshot,
}

} // verus!
