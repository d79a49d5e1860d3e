//! The text forms in which a workspace row's id and metadata blob are
//! stored.

use vstd::prelude::*;
use crate::errors::StorageError;
use crate::ids::{Uid, uuid_parse, uuid_parse_error};
use crate::json::{JsonValue, json_text_error, json_text_value, json_value_text, parse_json_text, write_json_text};

verus! {

/// An id read back from its stored text; text that is not an id is a
/// database error carrying the parse error's text.
pub fn parse_stored_id(text: &str) -> (r: Result<Uid, StorageError>)
    ensures
        match uuid_parse(text@) {
            Some(v) => r matches Ok(id) && id.0 == v,
            None => r matches Err(StorageError::Db(m)) && m@ == uuid_parse_error(text@),
        },
{
    match Uid::parse_or_error(text) {
        Ok(id) => Ok(id),
        Err(e) => Err(StorageError::Db(e)),
    }
}

/// The stored text of a metadata blob: none for no blob, else its JSON
/// text; a failure to write it is a serialization error.
pub fn encode_extra(extra: &Option<JsonValue>) -> (r: Result<Option<String>, StorageError>)
    ensures
        extra is None ==> r matches Ok(None),
        extra matches Some(v) ==> match json_value_text(v@) {
            Ok(t) => r matches Ok(Some(x)) && x@ == t,
            Err(m) => r matches Err(StorageError::Serde(e)) && e@ == m,
        },
{
    match extra {
        None => Ok(None),
        Some(v) => match write_json_text(v) {
            Ok(t) => Ok(Some(t)),
            Err(m) => Err(StorageError::Serde(m)),
        },
    }
}

/// The metadata blob of its stored text: none for no text, else the JSON
/// the text holds; text that is not JSON is a serialization error.
pub fn decode_extra(extra: Option<String>) -> (r: Result<Option<JsonValue>, StorageError>)
    ensures
        extra is None ==> r matches Ok(None),
        extra matches Some(t) ==> match json_text_value(t@) {
            Some(v) => r matches Ok(Some(x)) && x@ == v,
            None => r matches Err(StorageError::Serde(m)) && m@ == json_text_error(t@),
        },
{
    match extra {
        None => Ok(None),
        Some(t) => match parse_json_text(t.as_str()) {
            Ok(v) => Ok(Some(v)),
            Err(m) => Err(StorageError::Serde(m)),
        },
    }
}

} // verus!
