//! Error types shared by the storage, session and server layers.

use vstd::prelude::*;

verus! {

/// Storage-layer failure.
#[derive(Debug)]
pub enum StorageError {
    /// A requested entity does not exist.
    NotFound {
        /// Entity kind, e.g. `project`.
        entity: String,
        /// Identifier that was looked up.
        id: String,
    },
    /// Database failure.
    Db(String),
    /// Encoding or decoding failure.
    Serde(String),
}

/// Text of a storage error.
pub open spec fn storage_error_text(e: StorageError) -> Seq<char> {
    match e {
        StorageError::NotFound { entity, id } => "not found: "@ + entity@ + " "@ + id@,
        StorageError::Db(m) => "database error: "@ + m@,
        StorageError::Serde(m) => "serialization error: "@ + m@,
    }
}

impl StorageError {
    /// Human-readable text (`Display`).
    pub fn message(&self) -> (r: String)
        ensures
            r@ == storage_error_text(*self),
    {
        match self {
            StorageError::NotFound { entity, id } => {
                let mut s = String::from_str("not found: ");
                s.append(entity.as_str());
                s.append(" ");
                s.append(id.as_str());
                s
            },
            StorageError::Db(m) => String::from_str("database error: ").concat(m.as_str()),
            StorageError::Serde(m) => String::from_str("serialization error: ").concat(m.as_str()),
        }
    }
}

/// Session-runtime failure.
#[derive(Debug)]
pub enum SessionError {
    /// The session (or a pending request of it) does not exist.
    NotFound(String),
    /// Another run is already active for the session.
    Busy(String),
    /// No active run exists for the session.
    NoActiveRun(String),
    /// The run was cancelled.
    Cancelled,
    /// Internal runtime failure.
    RuntimeInternal(String),
    /// Model provider failure.
    Provider(String),
}

/// Text of a session error.
pub open spec fn session_error_text(e: SessionError) -> Seq<char> {
    match e {
        SessionError::NotFound(m) => "session not found: "@ + m@,
        SessionError::Busy(m) => "session busy: "@ + m@,
        SessionError::NoActiveRun(m) => "no active run for session: "@ + m@,
        SessionError::Cancelled => "session run cancelled"@,
        SessionError::RuntimeInternal(m) => "runtime error: "@ + m@,
        SessionError::Provider(m) => "provider error: "@ + m@,
    }
}

impl SessionError {
    /// Human-readable text (`Display`).
    pub fn message(&self) -> (r: String)
        ensures
            r@ == session_error_text(*self),
    {
        match self {
            SessionError::NotFound(m) => String::from_str("session not found: ").concat(m.as_str()),
            SessionError::Busy(m) => String::from_str("session busy: ").concat(m.as_str()),
            SessionError::NoActiveRun(m) => String::from_str("no active run for session: ").concat(
                m.as_str(),
            ),
            SessionError::Cancelled => String::from_str("session run cancelled"),
            SessionError::RuntimeInternal(m) => String::from_str("runtime error: ").concat(
                m.as_str(),
            ),
            SessionError::Provider(m) => String::from_str("provider error: ").concat(m.as_str()),
        }
    }
}

} // verus!
