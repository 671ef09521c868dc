//! An in-memory backend that really enforces the append protocol:
//! per-aggregate streams of plain-copy events under optimistic
//! concurrency, and an overwriting snapshot store. All mutation goes
//! through an exclusive borrow, so appends to one store are
//! serialized; the contracts here describe each append as one atomic
//! step of that serialization.

use vstd::prelude::*;
use crate::error::{AppendEventsError, Never};
use crate::store::{EventAppend, EventSource, SnapshotPersist, SnapshotSource};
use crate::types::{Precondition, Since, Version, VersionedEvent, VersionedSnapshot};

verus! {

/// The events of one aggregate within a record log: the payloads of
/// the records keyed by `id`, in log order.
pub open spec fn stream_of<E>(log: Seq<(u64, E)>, id: u64) -> Seq<E>
    decreases log.len(),
{
    if log.len() == 0 {
        Seq::empty()
    } else {
        let rest = stream_of(log.drop_last(), id);
        if log.last().0 == id {
            rest.push(log.last().1)
        } else {
            rest
        }
    }
}

/// A stream tagged with its versions: event `i` of a stream occupies
/// version `i + 1`.
pub open spec fn versioned<E>(stream: Seq<E>) -> Seq<VersionedEvent<E>> {
    Seq::new(
        stream.len(),
        |i: int| VersionedEvent { version: Version((i + 1) as u64), event: stream[i] },
    )
}

/// What a read of `stream` through the `since` cursor yields: `None`
/// when no event lies after the cursor, otherwise every event after
/// it, in order, with its version tag.
pub open spec fn read_view<E>(stream: Seq<E>, since: Since) -> Option<Seq<VersionedEvent<E>>> {
    if stream.len() <= since.cursor() {
        None
    } else {
        Some(versioned(stream).skip(since.cursor() as int))
    }
}

/// The sequence a read handed back, if it handed one back: lifts the
/// returned container to the mathematical value [`read_view`] speaks
/// of.
pub open spec fn events_view<E>(
    found: Option<Vec<VersionedEvent<E>>>,
) -> Option<Seq<VersionedEvent<E>>> {
    match found {
        Option::None => None,
        Option::Some(events) => Some(events@),
    }
}

/// An event store backed by one in-memory log of `(aggregate id,
/// event)` records. The stream of an aggregate is the subsequence of
/// records carrying its id; its current version is that stream's
/// length, so versions are contiguous from 1 by construction. Events
/// are plain-copy values, so reads hand back exactly what was
/// appended.
#[derive(Debug, Clone)]
pub struct MemoryEventStore<E> {
    log: Vec<(u64, E)>,
}

impl<E> MemoryEventStore<E> {
    /// The events of the aggregate `id`, in append order.
    pub closed spec fn stream(&self, id: u64) -> Seq<E> {
        stream_of(self.log@, id)
    }

    /// An empty store: no aggregate has any events.
    pub fn new() -> (r: Self)
        ensures
            forall|id: u64| r.stream(id) == Seq::<E>::empty(),
    {
        let r = MemoryEventStore { log: Vec::new() };
        proof {
            assert(forall|id: u64| r.stream(id) =~= Seq::<E>::empty());
        }
        r
    }

    /// The current version of the aggregate `id`: how many events its
    /// stream holds, 0 if it was never written to.
    pub fn current_version(&self, aggregate_id: &u64) -> (v: Version)
        ensures
            v.0 == self.stream(*aggregate_id).len(),
    {
        let id: u64 = *aggregate_id;
        let n = self.log.len();
        let mut count: u64 = 0;
        let mut i: usize = 0;
        while i < n
            invariant
                i <= n,
                n == self.log@.len(),
                count == stream_of(self.log@.take(i as int), id).len(),
                count <= i,
            decreases n - i,
        {
            proof {
                assert(self.log@.take(i + 1 as int).drop_last() =~= self.log@.take(i as int));
            }
            if self.log[i].0 == id {
                count = count + 1;
            }
            i = i + 1;
        }
        proof {
            assert(self.log@.take(n as int) =~= self.log@);
        }
        Version(count)
    }
}

proof fn lemma_stream_len_le<E>(log: Seq<(u64, E)>, id: u64)
    ensures
        stream_of(log, id).len() <= log.len(),
    decreases log.len(),
{
    if log.len() > 0 {
        lemma_stream_len_le(log.drop_last(), id);
    }
}

impl<E: Copy> EventSource for MemoryEventStore<E> {
    type AggregateId = u64;

    type Event = E;

    type Events = Vec<VersionedEvent<E>>;

    type Error = Never;

    /// Cannot fail, and yields exactly what [`read_view`] says of the
    /// aggregate's stream: `None` when no event lies after the
    /// cursor, otherwise every event after it, in ascending
    /// contiguous version order.
    fn read_events(
        &self,
        aggregate_id: &u64,
        since: Since,
    ) -> (r: Result<Option<Vec<VersionedEvent<E>>>, Never>)
        ensures
            r is Ok,
            events_view(r->Ok_0) == read_view(self.stream(*aggregate_id), since),
    {
        let id: u64 = *aggregate_id;
        let n = self.log.len();
        let mut full: Vec<VersionedEvent<E>> = Vec::new();
        let mut i: usize = 0;
        while i < n
            invariant
                i <= n,
                n == self.log@.len(),
                full@ =~= versioned(stream_of(self.log@.take(i as int), id)),
            decreases n - i,
        {
            proof {
                assert(self.log@.take(i + 1 as int).drop_last() =~= self.log@.take(i as int));
                lemma_stream_len_le(self.log@.take(i as int), id);
            }
            if self.log[i].0 == id {
                let ver = full.len() as u64;
                full.push(VersionedEvent { version: Version(ver + 1), event: self.log[i].1 });
                proof {
                    assert(full@ =~= versioned(stream_of(self.log@.take(i + 1 as int), id)));
                }
            }
            i = i + 1;
        }
        proof {
            assert(self.log@.take(n as int) =~= self.log@);
        }
        let cut: u64 = match since {
            Since::BeginningOfStream => 0,
            Since::Version(v) => v.0,
        };
        if full.len() as u64 <= cut {
            return Ok(None);
        }
        let start = cut as usize;
        let mut out: Vec<VersionedEvent<E>> = Vec::new();
        let mut j: usize = start;
        while j < full.len()
            invariant
                start <= j <= full@.len(),
                out@ =~= full@.subrange(start as int, j as int),
            decreases full@.len() - j,
        {
            out.push(full[j]);
            j = j + 1;
        }
        proof {
            assert(out@ =~= versioned(self.stream(id)).skip(cut as int));
        }
        Ok(Some(out))
    }
}

impl<E: Copy> EventAppend for MemoryEventStore<E> {
    type AggregateId = u64;

    type Event = E;

    type Error = AppendEventsError<Never>;

    /// Succeeds exactly when `condition` holds of the aggregate's
    /// current version. On success the batch is appended in order,
    /// occupying the next versions, and every other stream is left
    /// alone; on failure the whole store is left exactly as it was
    /// and the failed assertion is reported.
    fn append_events(
        &mut self,
        aggregate_id: &u64,
        events: &[E],
        condition: Precondition,
    ) -> (r: Result<(), AppendEventsError<Never>>)
        ensures
            r is Ok <==> condition.is_satisfied_by(old(self).stream(*aggregate_id).len()),
            r is Ok ==> final(self).stream(*aggregate_id)
                == old(self).stream(*aggregate_id) + events@,
            r is Ok ==> forall|other: u64|
                other != *aggregate_id ==> final(self).stream(other) == old(self).stream(other),
            !(r is Ok) ==> r == Err::<(), AppendEventsError<Never>>(
                AppendEventsError::PreconditionFailed(condition),
            ) && *final(self) == *old(self),
    {
        let id: u64 = *aggregate_id;
        let current = self.current_version(aggregate_id);
        if !condition.check(current.0) {
            return Err(AppendEventsError::PreconditionFailed(condition));
        }
        let n = events.len();
        let mut j: usize = 0;
        while j < n
            invariant
                j <= n,
                n == events@.len(),
                self.stream(id) =~= old(self).stream(id) + events@.take(j as int),
                forall|other: u64| other != id ==> self.stream(other) == old(self).stream(other),
            decreases n - j,
        {
            let ghost pre = self.log@;
            self.log.push((id, events[j]));
            proof {
                assert(self.log@.drop_last() =~= pre);
                assert(self.stream(id) =~= old(self).stream(id) + events@.take(j + 1 as int));
                assert forall|other: u64| other != id implies self.stream(other) == old(
                    self,
                ).stream(other) by {
                    assert(stream_of(self.log@, other) == stream_of(pre, other));
                }
            }
            j = j + 1;
        }
        proof {
            assert(events@.take(n as int) =~= events@);
            assert(self.stream(id) =~= old(self).stream(id) + events@);
        }
        Ok(())
    }
}

impl<E> Default for MemoryEventStore<E> {
    /// Same as [`MemoryEventStore::new`]: an empty store.
    fn default() -> (r: Self)
        ensures
            forall|id: u64| r.stream(id) == Seq::<E>::empty(),
    {
        MemoryEventStore::new()
    }
}

/// A snapshot store backed by one in-memory log of `(aggregate id,
/// versioned snapshot)` records, of which the latest record per
/// aggregate is the one a read sees: persisting overwrites.
#[derive(Debug, Clone)]
pub struct MemorySnapshotStore<S> {
    log: Vec<(u64, VersionedSnapshot<S>)>,
}

/// The latest snapshot recorded for `id` in a record log, if any.
pub open spec fn latest_of<S>(
    log: Seq<(u64, VersionedSnapshot<S>)>,
    id: u64,
) -> Option<VersionedSnapshot<S>>
    decreases log.len(),
{
    if log.len() == 0 {
        None
    } else if log.last().0 == id {
        Some(log.last().1)
    } else {
        latest_of(log.drop_last(), id)
    }
}

impl<S> MemorySnapshotStore<S> {
    /// The snapshot currently stored for the aggregate `id`, if any.
    pub closed spec fn snapshot_for(&self, id: u64) -> Option<VersionedSnapshot<S>> {
        latest_of(self.log@, id)
    }

    /// An empty store: no aggregate has a snapshot.
    pub fn new() -> (r: Self)
        ensures
            forall|id: u64| r.snapshot_for(id) is None,
    {
        MemorySnapshotStore { log: Vec::new() }
    }
}

impl<S: Copy> SnapshotSource for MemorySnapshotStore<S> {
    type AggregateId = u64;

    type Snapshot = S;

    type Error = Never;

    /// Cannot fail, and returns exactly the snapshot most recently
    /// persisted for the aggregate, or `None` if none ever was.
    fn get_snapshot(
        &self,
        aggregate_id: &u64,
    ) -> (r: Result<Option<VersionedSnapshot<S>>, Never>)
        ensures
            r is Ok,
            r->Ok_0 == self.snapshot_for(*aggregate_id),
    {
        let id: u64 = *aggregate_id;
        let n = self.log.len();
        let mut found: Option<VersionedSnapshot<S>> = None;
        let mut i: usize = 0;
        while i < n
            invariant
                i <= n,
                n == self.log@.len(),
                found == latest_of(self.log@.take(i as int), id),
            decreases n - i,
        {
            proof {
                assert(self.log@.take(i + 1 as int).drop_last() =~= self.log@.take(i as int));
            }
            if self.log[i].0 == id {
                found = Some(self.log[i].1);
            }
            i = i + 1;
        }
        proof {
            assert(self.log@.take(n as int) =~= self.log@);
        }
        Ok(found)
    }
}

impl<S> SnapshotPersist for MemorySnapshotStore<S> {
    type AggregateId = u64;

    type Snapshot = S;

    type Error = Never;

    /// Cannot fail. Afterwards the aggregate's stored snapshot is
    /// exactly the one given, whatever was there before, and every
    /// other aggregate's snapshot is left alone — so persisting the
    /// same arguments twice leaves the store observably as one
    /// persist does.
    fn persist_snapshot(
        &mut self,
        aggregate_id: &u64,
        version: Version,
        snapshot: S,
    ) -> (r: Result<(), Never>)
        ensures
            r is Ok,
            final(self).snapshot_for(*aggregate_id) == Some(
                VersionedSnapshot { version, snapshot },
            ),
            forall|other: u64|
                other != *aggregate_id ==> final(self).snapshot_for(other) == old(
                    self,
                ).snapshot_for(other),
    {
        let ghost pre = self.log@;
        self.log.push((*aggregate_id, VersionedSnapshot { version, snapshot }));
        proof {
            assert(self.log@.drop_last() =~= pre);
        }
        Ok(())
    }
}

impl<S> Default for MemorySnapshotStore<S> {
    /// Same as [`MemorySnapshotStore::new`]: an empty store.
    fn default() -> (r: Self)
        ensures
            forall|id: u64| r.snapshot_for(id) is None,
    {
        MemorySnapshotStore::new()
    }
}

/// What one persist call does to a snapshot store, as its contract
/// states it: afterwards the aggregate holds exactly the given
/// versioned snapshot, and no other aggregate changed.
pub open spec fn persist_effect<S>(
    pre: MemorySnapshotStore<S>,
    post: MemorySnapshotStore<S>,
    id: u64,
    stored: VersionedSnapshot<S>,
) -> bool {
    &&& post.snapshot_for(id) == Some(stored)
    &&& forall|other: u64| other != id ==> post.snapshot_for(other) == pre.snapshot_for(other)
}

/// Freshly created stores hold nothing: in the state `new`
/// establishes, every aggregate reads as having no events, whatever
/// the cursor, and no snapshot.
pub proof fn lemma_fresh_stores_hold_nothing<E, S>(
    events: MemoryEventStore<E>,
    snapshots: MemorySnapshotStore<S>,
    id: u64,
    since: Since,
)
    requires
        forall|a: u64| events.stream(a) == Seq::<E>::empty(),
        forall|a: u64| snapshots.snapshot_for(a) is None,
    ensures
        read_view(events.stream(id), since) is None,
        snapshots.snapshot_for(id) is None,
{
}

/// The round trip at the heart of the append protocol: a non-empty
/// batch appended to an empty stream under the unconditional
/// precondition — which an empty stream always satisfies — is exactly
/// what a subsequent read from the beginning yields: the same events,
/// in the same order, tagged with the contiguous versions 1 through
/// N.
pub proof fn lemma_append_then_read_round_trip<E>(batch: Seq<E>)
    requires
        0 < batch.len() <= u64::MAX,
    ensures
        Precondition::Always.is_satisfied_by(Seq::<E>::empty().len()),
        read_view(Seq::<E>::empty() + batch, Since::BeginningOfStream) == Some(versioned(batch)),
        versioned(batch).len() == batch.len(),
        forall|i: int| 0 <= i < batch.len() ==> versioned(batch)[i].event == batch[i],
        forall|i: int| 0 <= i < batch.len() ==> versioned(batch)[i].version.0 == i + 1,
{
    assert(Seq::<E>::empty() + batch =~= batch);
    assert(versioned(batch).skip(0) =~= versioned(batch));
}

/// Exactly one of two writers racing on the same expected version can
/// win. Appends to one store serialize; whichever lands first sees
/// the version both writers asserted and succeeds, after which the
/// stream has grown past that version, so the assertion no longer
/// holds and the append protocol rejects the other writer with a
/// precondition failure, leaving the stream unchanged.
pub proof fn lemma_conflicting_appends_have_one_winner<E>(stream: Seq<E>, batch: Seq<E>, v: u64)
    requires
        stream.len() == v,
        batch.len() > 0,
    ensures
        Precondition::ExpectedVersion(Version(v)).is_satisfied_by(stream.len()),
        !Precondition::ExpectedVersion(Version(v)).is_satisfied_by((stream + batch).len()),
{
}

/// Persisting a snapshot is observed exactly: after a persist, the
/// aggregate's stored snapshot is the persisted value with the
/// persisted version, which is just what a read hands back.
pub proof fn lemma_persist_then_get<S>(
    pre: MemorySnapshotStore<S>,
    post: MemorySnapshotStore<S>,
    id: u64,
    stored: VersionedSnapshot<S>,
)
    requires
        persist_effect(pre, post, id, stored),
    ensures
        post.snapshot_for(id) == Some(stored),
{
}

/// Persisting the same snapshot twice is indistinguishable from
/// persisting it once: the store after the second persist answers
/// every read exactly as the store after the first did.
pub proof fn lemma_persist_twice_is_once<S>(
    initial: MemorySnapshotStore<S>,
    once: MemorySnapshotStore<S>,
    twice: MemorySnapshotStore<S>,
    id: u64,
    stored: VersionedSnapshot<S>,
)
    requires
        persist_effect(initial, once, id, stored),
        persist_effect(once, twice, id, stored),
    ensures
        forall|a: u64| twice.snapshot_for(a) == once.snapshot_for(a),
{
}

} // verus!
