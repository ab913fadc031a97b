//! The failures of the engine.

use vstd::prelude::*;
use crate::feed::FetchError;

verus! {

/// A write that the persisted relations refuse.
#[derive(Debug, Clone, Copy, PartialEq, Eq, Structural)]
pub enum PersistenceError {
    /// A row would repeat a key that must be unique.
    UniqueViolation,
    /// A value does not fit its column: more episodes than ranks, or no
    /// surrogate key left.
    OutOfRange,
    /// The row to update is not stored.
    NotFound,
}

/// Why a synchronisation did not complete.
#[derive(Debug, Clone, Copy, PartialEq, Eq, Structural)]
pub enum SyncError {
    /// The feed could not be had.
    Fetch(FetchError),
    /// The feed was had, but its episodes could not be stored.
    Persistence(PersistenceError),
}

} // verus!
