//! The error taxonomy: an uninhabited type for operations that cannot
//! fail, and the two ways an append can be rejected.

use vstd::prelude::*;
use crate::types::Precondition;

verus! {

/// An error type with no values. An operation whose error type is
/// `Never` is statically known to always succeed: the one field wraps
/// `core::convert::Infallible`, the standard uninhabited type, so no
/// value of `Never` can ever be constructed and the `Err` case is
/// unreachable.
#[derive(Debug, PartialEq, Eq)]
pub struct Never {
    _never: core::convert::Infallible,
}

/// Why an append was rejected: either the writer's optimistic-
/// concurrency assertion did not hold, or the underlying store itself
/// failed.
#[derive(Clone, Copy, Debug, PartialEq, Eq)]
pub enum AppendEventsError<E> {
    /// The stream was not in the state the writer asserted. The failed
    /// assertion is carried so the caller can re-read and retry.
    PreconditionFailed(Precondition),
    /// The backend failed; the wrapped value says how.
    Store(E),
}

} // verus!
