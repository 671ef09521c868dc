//! Storage abstraction for an event-sourced aggregate model.
//!
//! An aggregate's history is an ordered stream of immutable events, each
//! tagged with the `Version` it occupies; writers assert a `Precondition`
//! about the stream so that stale writes are rejected (optimistic
//! concurrency). The capability traits in [`store`] describe reading and
//! appending events, reading and persisting snapshots, and decorating
//! events with infrastructure metadata. [`trivial`] holds the null
//! implementations that accept everything and remember nothing, and
//! [`memory`] holds an in-memory backend that really enforces the
//! append protocol.

pub mod error;
pub mod memory;
pub mod store;
pub mod trivial;
pub mod types;

pub use error::{AppendEventsError, Never};
pub use store::{EventAppend, EventDecorator, EventSource, SnapshotPersist, SnapshotSource};
pub use trivial::{NopEventDecorator, NullEventStore, NullSnapshotStore};
pub use types::{Precondition, Since, Version, VersionedEvent, VersionedSnapshot};
