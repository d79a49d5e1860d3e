//! Append-only sync-event store: not yet backed by storage, every call
//! fails with a database error.

use vstd::prelude::*;
use crate::errors::StorageError;
use crate::json::JsonValue;

verus! {

/// Append-only event store for aggregates.
pub struct SyncEventStore;

/// A stored event row.
#[derive(Debug, Clone)]
pub struct StoredEvent {
    /// Monotonic sequence number.
    pub seq: i64,
    /// Aggregate the event belongs to.
    pub aggregate_id: String,
    /// Event type discriminant.
    pub event_type: String,
    /// JSON payload.
    pub data: JsonValue,
}

/// The error every store call gives.
pub open spec fn not_implemented(e: StorageError) -> bool {
    e matches StorageError::Db(m) && m@ == "SyncEventStore not yet implemented"@
}

impl SyncEventStore {
    /// Append an event for `aggregate_id`; fails: the store is not
    /// implemented.
    pub fn append(&self, aggregate_id: &str, event_type: &str, data: JsonValue) -> (r: Result<i64, StorageError>)
        ensures
            r matches Err(e) && not_implemented(e),
    {
        Err(StorageError::Db(String::from_str("SyncEventStore not yet implemented")))
    }

    /// List events for `aggregate_id` after `since`; fails: the store is
    /// not implemented.
    pub fn list_since(&self, aggregate_id: &str, since: i64) -> (r: Result<Vec<StoredEvent>, StorageError>)
        ensures
            r matches Err(e) && not_implemented(e),
    {
        Err(StorageError::Db(String::from_str("SyncEventStore not yet implemented")))
    }
}

} // verus!
