//! The capability contracts. Each concern is its own trait so a
//! backend can offer exactly the capabilities it supports: reading
//! events, appending events, reading snapshots, persisting snapshots,
//! and decorating events on their way to a store. Every implementation
//! in this crate states its exact behaviour in the `ensures` of its
//! own impl.

use vstd::prelude::*;
use crate::types::{Precondition, Since, Version};
use crate::types::VersionedSnapshot;

verus! {

/// Read access to an aggregate's event stream.
pub trait EventSource {
    /// Identifies one event stream.
    type AggregateId;

    /// The domain event type.
    type Event;

    /// The container a successful read hands back: the selected
    /// events in ascending, contiguous version order.
    type Events;

    /// Backend-specific failure.
    type Error;

    /// Reads the events of `aggregate_id` that lie after the `since`
    /// cursor: `Ok(None)` when nothing satisfies the cursor (including
    /// an aggregate never written to), `Ok(Some(events))` otherwise.
    fn read_events(
        &self,
        aggregate_id: &Self::AggregateId,
        since: Since,
    ) -> Result<Option<Self::Events>, Self::Error>;
}

/// Write access to an aggregate's event stream, under optimistic
/// concurrency control.
pub trait EventAppend {
    /// Identifies one event stream.
    type AggregateId;

    /// The domain event type.
    type Event;

    /// Backend-specific failure, wrapped in `AppendEventsError`.
    type Error;

    /// Appends `events` to the stream of `aggregate_id` as one atomic
    /// batch, but only if `condition` holds of the stream at the
    /// moment the append is applied. On success every event is
    /// assigned the next sequential version; on failure the stream is
    /// left exactly as it was.
    fn append_events(
        &mut self,
        aggregate_id: &Self::AggregateId,
        events: &[Self::Event],
        condition: Precondition,
    ) -> Result<(), Self::Error>;
}

/// Read access to an aggregate's most recent snapshot.
pub trait SnapshotSource {
    /// Identifies one aggregate.
    type AggregateId;

    /// The materialized aggregate state.
    type Snapshot;

    /// Backend-specific failure.
    type Error;

    /// Returns the most recently persisted snapshot of the aggregate,
    /// or `Ok(None)` if none was ever persisted.
    fn get_snapshot(
        &self,
        aggregate_id: &Self::AggregateId,
    ) -> Result<Option<VersionedSnapshot<Self::Snapshot>>, Self::Error>;
}

/// Write access for snapshots. Snapshots are advisory: a backend must
/// still answer reads purely from events when none exists.
pub trait SnapshotPersist {
    /// Identifies one aggregate.
    type AggregateId;

    /// The materialized aggregate state.
    type Snapshot;

    /// Backend-specific failure.
    type Error;

    /// Stores `snapshot` as the aggregate's snapshot as of `version`,
    /// overwriting any prior one.
    fn persist_snapshot(
        &mut self,
        aggregate_id: &Self::AggregateId,
        version: Version,
        snapshot: Self::Snapshot,
    ) -> Result<(), Self::Error>;
}

/// A pure, stateless transform applied to each event before it
/// reaches a store, used to attach infrastructure metadata without
/// the domain event type carrying it. Composition is plain function
/// composition: feed one decorator's output to the next.
pub trait EventDecorator {
    /// The domain event type.
    type Event;

    /// What the decorator produces; may equal `Event`.
    type DecoratedEvent;

    /// Decorates one event. Implementations must be pure functions of
    /// the event alone: no store state, no ambient input.
    fn decorate(&self, event: &Self::Event) -> Self::DecoratedEvent;
}

} // verus!
