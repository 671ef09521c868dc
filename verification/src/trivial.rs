//! Null implementations of the store contracts: stores that accept
//! every write and discard it, report "nothing stored" on every read,
//! and a decorator that leaves events alone. They implement the
//! contracts trivially — by design they do not enforce the
//! optimistic-concurrency protocol — and serve as defaults and as
//! neutral elements when testing composition.

use vstd::prelude::*;
use core::marker::PhantomData;
use crate::error::{AppendEventsError, Never};
use crate::store::{EventAppend, EventDecorator, EventSource, SnapshotPersist, SnapshotSource};
use crate::types::{Precondition, Since, Version, VersionedEvent, VersionedSnapshot};

verus! {

/// Relies on std's `PhantomData::clone`: `PhantomData<T>` has exactly
/// one value, so the clone the derived impls of this module call is
/// that same value.
pub assume_specification<T>[ <PhantomData<T> as Clone>::clone ](
    v: &PhantomData<T>,
) -> (r: PhantomData<T>)
    where
        T: core::marker::PointeeSized,
    ensures
        r == *v,
;

/// An event store that remembers nothing: reads always report no
/// data, appends always succeed and discard their batch.
#[derive(Debug, PartialEq, Clone, Copy)]
pub struct NullEventStore<Event, AggregateId> {
    _phantom: PhantomData<(Event, AggregateId)>,
}

impl<Event, AggregateId> Default for NullEventStore<Event, AggregateId> {
    /// A fresh null event store. All values of this type behave alike.
    fn default() -> Self {
        NullEventStore { _phantom: PhantomData }
    }
}

impl<Event, AggregateId> EventSource for NullEventStore<Event, AggregateId> {
    type AggregateId = AggregateId;

    type Event = Event;

    type Events = Vec<VersionedEvent<Event>>;

    type Error = Never;

    /// Always reports that nothing is stored, and cannot fail.
    fn read_events(
        &self,
        _aggregate_id: &AggregateId,
        _since: Since,
    ) -> (r: Result<Option<Vec<VersionedEvent<Event>>>, Never>)
        ensures
            r == Ok::<Option<Vec<VersionedEvent<Event>>>, Never>(None),
    {
        Ok(None)
    }
}

impl<Event, AggregateId> EventAppend for NullEventStore<Event, AggregateId> {
    type AggregateId = AggregateId;

    type Event = Event;

    type Error = AppendEventsError<Never>;

    /// Accepts and discards every batch, whatever the precondition,
    /// and leaves the store as it was.
    fn append_events(
        &mut self,
        _aggregate_id: &AggregateId,
        _events: &[Event],
        _condition: Precondition,
    ) -> (r: Result<(), AppendEventsError<Never>>)
        ensures
            r == Ok::<(), AppendEventsError<Never>>(()),
            *final(self) == *old(self),
    {
        Ok(())
    }
}

/// A snapshot store that remembers nothing: reads always report no
/// snapshot, persists always succeed and discard their argument.
#[derive(Debug, PartialEq, Copy, Clone)]
pub struct NullSnapshotStore<Snapshot, AggregateId> {
    _phantom: PhantomData<(Snapshot, AggregateId)>,
}

impl<Snapshot, AggregateId> Default for NullSnapshotStore<Snapshot, AggregateId> {
    /// A fresh null snapshot store. All values of this type behave alike.
    fn default() -> Self {
        NullSnapshotStore { _phantom: PhantomData }
    }
}

impl<Snapshot, AggregateId> SnapshotSource for NullSnapshotStore<Snapshot, AggregateId> {
    type AggregateId = AggregateId;

    type Snapshot = Snapshot;

    type Error = Never;

    /// Always reports that no snapshot exists, and cannot fail.
    fn get_snapshot(
        &self,
        _aggregate_id: &AggregateId,
    ) -> (r: Result<Option<VersionedSnapshot<Snapshot>>, Never>)
        ensures
            r == Ok::<Option<VersionedSnapshot<Snapshot>>, Never>(None),
    {
        Ok(None)
    }
}

impl<Snapshot, AggregateId> SnapshotPersist for NullSnapshotStore<Snapshot, AggregateId> {
    type AggregateId = AggregateId;

    type Snapshot = Snapshot;

    type Error = Never;

    /// Accepts and discards every snapshot, and leaves the store as
    /// it was.
    fn persist_snapshot(
        &mut self,
        _aggregate_id: &AggregateId,
        _version: Version,
        _snapshot: Snapshot,
    ) -> (r: Result<(), Never>)
        ensures
            r == Ok::<(), Never>(()),
            *final(self) == *old(self),
    {
        Ok(())
    }
}

/// The decorator that attaches nothing: it hands back a clone of the
/// event it was given. It is the neutral element of decorator
/// composition — feeding its output to any decorator behaves like
/// that decorator alone.
#[derive(Debug, Clone, Copy)]
pub struct NopEventDecorator<Event: Clone> {
    _phantom: PhantomData<Event>,
}

impl<Event: Clone> Default for NopEventDecorator<Event> {
    /// A fresh no-op decorator. All values of this type behave alike.
    fn default() -> Self {
        NopEventDecorator { _phantom: PhantomData }
    }
}

impl<Event: Clone> EventDecorator for NopEventDecorator<Event> {
    type Event = Event;

    type DecoratedEvent = Event;

    /// Hands back a clone of the event, unchanged: the result is a
    /// clone of the input (for any well-behaved `Clone`, the very
    /// same value).
    fn decorate(&self, event: &Event) -> (r: Event)
        ensures
            cloned(*event, r),
    {
        event.clone()
    }
}

} // verus!
