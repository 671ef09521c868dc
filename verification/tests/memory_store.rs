use cqrs::memory::{MemoryEventStore, MemorySnapshotStore};
use cqrs::{
    AppendEventsError, EventAppend, EventSource, Precondition, Since, SnapshotPersist,
    SnapshotSource, Version, VersionedSnapshot,
};

#[test]
fn unwritten_aggregate_reads_none() {
    let store = MemoryEventStore::<u64>::new();
    assert_eq!(store.read_events(&1, Since::BeginningOfStream).unwrap(), None);
    assert_eq!(store.read_events(&1, Since::Version(Version(4))).unwrap(), None);
    assert_eq!(store.current_version(&1), Version(0));
}

#[test]
fn unwritten_aggregate_reads_none_beside_written_one() {
    let mut store = MemoryEventStore::<u64>::new();
    store.append_events(&1, &[10, 20], Precondition::Always).unwrap();
    assert_eq!(store.read_events(&2, Since::BeginningOfStream).unwrap(), None);
    assert_eq!(store.current_version(&2), Version(0));
}

#[test]
fn read_after_append_returns_batch_with_contiguous_versions() {
    let mut store = MemoryEventStore::<u64>::new();
    store.append_events(&7, &[10, 20, 30], Precondition::Always).unwrap();
    let events = store.read_events(&7, Since::BeginningOfStream).unwrap().unwrap();
    assert_eq!(events.len(), 3);
    let versions: Vec<u64> = events.iter().map(|e| e.version.0).collect();
    assert_eq!(versions, vec![1, 2, 3]);
    let payloads: Vec<u64> = events.iter().map(|e| e.event).collect();
    assert_eq!(payloads, vec![10, 20, 30]);
    assert_eq!(store.current_version(&7), Version(3));
}

#[test]
fn appends_accumulate_across_calls() {
    let mut store = MemoryEventStore::<u64>::new();
    store.append_events(&7, &[10], Precondition::Always).unwrap();
    store.append_events(&7, &[20, 30], Precondition::Always).unwrap();
    let events = store.read_events(&7, Since::BeginningOfStream).unwrap().unwrap();
    let tagged: Vec<(u64, u64)> = events.iter().map(|e| (e.version.0, e.event)).collect();
    assert_eq!(tagged, vec![(1, 10), (2, 20), (3, 30)]);
}

#[test]
fn streams_are_independent() {
    let mut store = MemoryEventStore::<u64>::new();
    store.append_events(&1, &[10], Precondition::Always).unwrap();
    store.append_events(&2, &[77, 88], Precondition::Always).unwrap();
    store.append_events(&1, &[11], Precondition::Always).unwrap();
    let one = store.read_events(&1, Since::BeginningOfStream).unwrap().unwrap();
    let two = store.read_events(&2, Since::BeginningOfStream).unwrap().unwrap();
    assert_eq!(one.iter().map(|e| e.event).collect::<Vec<u64>>(), vec![10, 11]);
    assert_eq!(two.iter().map(|e| e.event).collect::<Vec<u64>>(), vec![77, 88]);
    assert_eq!(one.iter().map(|e| e.version.0).collect::<Vec<u64>>(), vec![1, 2]);
    assert_eq!(two.iter().map(|e| e.version.0).collect::<Vec<u64>>(), vec![1, 2]);
}

#[test]
fn read_since_version_returns_only_later_events() {
    let mut store = MemoryEventStore::<u64>::new();
    store.append_events(&7, &[10, 20, 30], Precondition::Always).unwrap();
    let tail = store.read_events(&7, Since::Version(Version(1))).unwrap().unwrap();
    let tagged: Vec<(u64, u64)> = tail.iter().map(|e| (e.version.0, e.event)).collect();
    assert_eq!(tagged, vec![(2, 20), (3, 30)]);
}

#[test]
fn read_since_latest_or_beyond_returns_none() {
    let mut store = MemoryEventStore::<u64>::new();
    store.append_events(&7, &[10, 20], Precondition::Always).unwrap();
    assert_eq!(store.read_events(&7, Since::Version(Version(2))).unwrap(), None);
    assert_eq!(store.read_events(&7, Since::Version(Version(9))).unwrap(), None);
}

#[test]
fn expected_version_append_succeeds_exactly_at_that_version() {
    let mut store = MemoryEventStore::<u64>::new();
    store
        .append_events(&7, &[10], Precondition::ExpectedVersion(Version(0)))
        .unwrap();
    store
        .append_events(&7, &[20], Precondition::ExpectedVersion(Version(1)))
        .unwrap();
    assert_eq!(store.current_version(&7), Version(2));
}

#[test]
fn stale_expected_version_fails_and_leaves_stream_unchanged() {
    let mut store = MemoryEventStore::<u64>::new();
    store.append_events(&7, &[10, 20], Precondition::Always).unwrap();
    let stale = Precondition::ExpectedVersion(Version(1));
    let outcome = store.append_events(&7, &[30], stale);
    assert_eq!(outcome, Err(AppendEventsError::PreconditionFailed(stale)));
    let events = store.read_events(&7, Since::BeginningOfStream).unwrap().unwrap();
    assert_eq!(events.iter().map(|e| e.event).collect::<Vec<u64>>(), vec![10, 20]);
    assert_eq!(store.current_version(&7), Version(2));
}

#[test]
fn new_stream_precondition_rejects_existing_stream() {
    let mut store = MemoryEventStore::<u64>::new();
    store.append_events(&7, &[10], Precondition::NewStream).unwrap();
    let outcome = store.append_events(&7, &[20], Precondition::NewStream);
    assert_eq!(
        outcome,
        Err(AppendEventsError::PreconditionFailed(Precondition::NewStream))
    );
    assert_eq!(store.current_version(&7), Version(1));
}

#[test]
fn racing_appends_on_one_version_have_exactly_one_winner() {
    // Appends serialize on the store; this plays out the two orders a
    // race on version 0 can linearize into.
    let condition = Precondition::ExpectedVersion(Version(0));
    let mut store = MemoryEventStore::<u64>::new();
    let first = store.append_events(&7, &[10], condition);
    let second = store.append_events(&7, &[20], condition);
    assert!(first.is_ok());
    assert_eq!(second, Err(AppendEventsError::PreconditionFailed(condition)));
    let events = store.read_events(&7, Since::BeginningOfStream).unwrap().unwrap();
    assert_eq!(events.len(), 1);
    assert_eq!(events[0].event, 10);
}

#[test]
fn empty_batch_append_changes_nothing() {
    let mut store = MemoryEventStore::<u64>::new();
    store.append_events(&7, &[], Precondition::Always).unwrap();
    assert_eq!(store.current_version(&7), Version(0));
    assert_eq!(store.read_events(&7, Since::BeginningOfStream).unwrap(), None);
}

#[test]
fn snapshot_round_trip_returns_what_was_stored() {
    let mut store = MemorySnapshotStore::<u64>::new();
    assert_eq!(store.get_snapshot(&5).unwrap(), None);
    store.persist_snapshot(&5, Version(3), 99).unwrap();
    assert_eq!(
        store.get_snapshot(&5).unwrap(),
        Some(VersionedSnapshot { version: Version(3), snapshot: 99 })
    );
    assert_eq!(store.get_snapshot(&6).unwrap(), None);
}

#[test]
fn persisting_twice_is_indistinguishable_from_once() {
    let mut once = MemorySnapshotStore::<u64>::new();
    once.persist_snapshot(&5, Version(3), 99).unwrap();
    let mut twice = MemorySnapshotStore::<u64>::new();
    twice.persist_snapshot(&5, Version(3), 99).unwrap();
    twice.persist_snapshot(&5, Version(3), 99).unwrap();
    for id in [5u64, 6u64] {
        assert_eq!(once.get_snapshot(&id).unwrap(), twice.get_snapshot(&id).unwrap());
    }
}

#[test]
fn persisting_overwrites_the_prior_snapshot() {
    let mut store = MemorySnapshotStore::<u64>::new();
    store.persist_snapshot(&5, Version(3), 99).unwrap();
    store.persist_snapshot(&5, Version(8), 123).unwrap();
    assert_eq!(
        store.get_snapshot(&5).unwrap(),
        Some(VersionedSnapshot { version: Version(8), snapshot: 123 })
    );
}

#[test]
fn store_error_variant_wraps_the_backend_error() {
    let wrapped: AppendEventsError<u8> = AppendEventsError::Store(3);
    assert!(matches!(wrapped, AppendEventsError::Store(3)));
    assert_ne!(wrapped, AppendEventsError::PreconditionFailed(Precondition::Always));
}
