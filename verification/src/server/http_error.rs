//! HTTP error values of the route layer and the mapping of library errors
//! onto them.

use vstd::prelude::*;
use crate::errors::{SessionError, StorageError, session_error_text};
use crate::json::{JsonModel, JsonValue, entry_models, object_push};

verus! {

/// HTTP error response: a status code and a message.
#[derive(Debug)]
pub struct HttpError {
    status: u16,
    msg: String,
}

impl HttpError {
    /// The status code.
    pub closed spec fn status_spec(&self) -> u16 {
        self.status
    }

    /// The message.
    pub closed spec fn msg_spec(&self) -> Seq<char> {
        self.msg@
    }

    /// 404 Not Found.
    pub fn not_found(msg: String) -> (r: Self)
        ensures
            r.status_spec() == 404,
            r.msg_spec() == msg@,
    {
        HttpError { status: 404, msg }
    }

    /// 400 Bad Request.
    pub fn bad_request(msg: String) -> (r: Self)
        ensures
            r.status_spec() == 400,
            r.msg_spec() == msg@,
    {
        HttpError { status: 400, msg }
    }

    /// 500 Internal Server Error.
    pub fn internal(msg: String) -> (r: Self)
        ensures
            r.status_spec() == 500,
            r.msg_spec() == msg@,
    {
        HttpError { status: 500, msg }
    }

    /// 409 Conflict.
    pub fn conflict(msg: String) -> (r: Self)
        ensures
            r.status_spec() == 409,
            r.msg_spec() == msg@,
    {
        HttpError { status: 409, msg }
    }

    /// 502 Bad Gateway.
    pub fn bad_gateway(msg: String) -> (r: Self)
        ensures
            r.status_spec() == 502,
            r.msg_spec() == msg@,
    {
        HttpError { status: 502, msg }
    }

    /// The status code.
    pub fn status(&self) -> (r: u16)
        ensures
            r == self.status_spec(),
    {
        self.status
    }

    /// The message.
    pub fn message(&self) -> (r: &String)
        ensures
            r@ == self.msg_spec(),
    {
        &self.msg
    }

    /// The response body `{"error": msg}`.
    pub fn body(&self) -> (r: JsonValue)
        ensures
            r@ == JsonModel::Object(seq![("error"@, JsonModel::Str(self.msg_spec()))]),
    {
        let mut es: Vec<(String, JsonValue)> = Vec::new();
        assert(entry_models(es@) =~= Seq::<(Seq<char>, JsonModel)>::empty());
        object_push(&mut es, "error", JsonValue::text(self.msg.as_str()));
        assert(entry_models(es@) =~= seq![("error"@, JsonModel::Str(self.msg_spec()))]);
        JsonValue::Object(es)
    }

    /// Map a storage error: not-found gives 404 with `not found: {entity}
    /// {id}`; database and encoding failures give 500 with their detail.
    pub fn from_storage_error(err: StorageError) -> (r: Self)
        ensures
            match err {
                StorageError::NotFound { entity, id } => r.status_spec() == 404 && r.msg_spec()
                    == "not found: "@ + entity@ + " "@ + id@,
                StorageError::Db(m) => r.status_spec() == 500 && r.msg_spec() == m@,
                StorageError::Serde(m) => r.status_spec() == 500 && r.msg_spec() == m@,
            },
    {
        match err {
            StorageError::NotFound { entity, id } => {
                let mut s = String::from_str("not found: ");
                s.append(entity.as_str());
                s.append(" ");
                s.append(id.as_str());
                HttpError::not_found(s)
            },
            StorageError::Db(m) => HttpError::internal(m),
            StorageError::Serde(m) => HttpError::internal(m),
        }
    }

    /// Map a session-runtime error onto its status; the message is the
    /// error's text. A missing session is 404; a busy session, a cancel
    /// without an active run and a cancelled run are 409; a provider
    /// failure is 502; an internal failure is 500.
    pub fn from_session_error(err: SessionError) -> (r: Self)
        ensures
            r.msg_spec() == session_error_text(err),
            r.status_spec() == (match err {
                SessionError::NotFound(_) => 404u16,
                SessionError::Busy(_) => 409u16,
                SessionError::NoActiveRun(_) => 409u16,
                SessionError::Cancelled => 409u16,
                SessionError::RuntimeInternal(_) => 500u16,
                SessionError::Provider(_) => 502u16,
            }),
    {
        let msg = err.message();
        match err {
            SessionError::NotFound(_) => HttpError::not_found(msg),
            SessionError::Busy(_) => HttpError::conflict(msg),
            SessionError::NoActiveRun(_) => HttpError::conflict(msg),
            SessionError::Cancelled => HttpError::conflict(msg),
            SessionError::RuntimeInternal(_) => HttpError::internal(msg),
            SessionError::Provider(_) => HttpError::bad_gateway(msg),
        }
    }
}

} // verus!
