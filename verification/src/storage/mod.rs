//! Storage-side logic that does not touch the database.

pub mod permission;
pub mod event_store;
pub mod workspace;
