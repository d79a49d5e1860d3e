//! JSON shape of a session runtime status: `"idle"`, `"busy"`, or
//! `{"type": "blocked", "kind": .., "requestID": ..}`.

use vstd::prelude::*;
use crate::json::{JsonModel, JsonValue, entries_get, entry_models, lemma_json_models_index, object_push};
use crate::session::types::{SessionBlockedKind, SessionRuntimeStatus, StatusModel};
use crate::text::str_eq;

verus! {

/// Text of a blocking kind.
pub open spec fn kind_text(k: SessionBlockedKind) -> Seq<char> {
    match k {
        SessionBlockedKind::Permission => "permission"@,
        SessionBlockedKind::Question => "question"@,
    }
}

/// JSON of a status.
pub open spec fn status_json(s: StatusModel) -> JsonModel {
    match s {
        StatusModel::Idle => JsonModel::Str("idle"@),
        StatusModel::Busy => JsonModel::Str("busy"@),
        StatusModel::Blocked { kind, request_id } => JsonModel::Object(
            seq![
                ("type"@, JsonModel::Str("blocked"@)),
                ("kind"@, JsonModel::Str(kind_text(kind))),
                ("requestID"@, JsonModel::Str(request_id)),
            ],
        ),
    }
}

/// Error text when a value has neither accepted shape.
pub open spec fn no_variant_text() -> Seq<char> {
    "data did not match any variant of untagged enum SessionRuntimeStatusWire"@
}

/// Blocking kind named by a JSON value.
pub open spec fn kind_of(v: Option<JsonModel>) -> Option<SessionBlockedKind> {
    match v {
        Some(JsonModel::Str(s)) => if s == "permission"@ {
            Some(SessionBlockedKind::Permission)
        } else if s == "question"@ {
            Some(SessionBlockedKind::Question)
        } else {
            None
        },
        _ => None,
    }
}

/// A blocked status from its `type`, `kind` and `requestID` values: `type`
/// may be absent, `null` or a string, and a string other than `blocked`
/// is refused.
pub open spec fn blocked_from(t: Option<JsonModel>, k: Option<JsonModel>, r: Option<JsonModel>) -> Result<StatusModel, Seq<char>> {
    let type_ok = t is None || t == Some(JsonModel::Null) || t matches Some(JsonModel::Str(_));
    if !type_ok || kind_of(k) is None || !(r matches Some(JsonModel::Str(_))) {
        Err(no_variant_text())
    } else if t matches Some(JsonModel::Str(x)) && x != "blocked"@ {
        Err("blocked status type must be 'blocked'"@)
    } else {
        Ok(StatusModel::Blocked { kind: kind_of(k)->Some_0, request_id: r->Some_0->Str_0 })
    }
}

/// Status read from JSON: the strings `idle` and `busy`; a blocked status
/// as an object with those fields (others ignored) or as a three-element
/// array in field order.
pub open spec fn status_from_json(v: JsonModel) -> Result<StatusModel, Seq<char>> {
    match v {
        JsonModel::Str(s) => if s == "idle"@ {
            Ok(StatusModel::Idle)
        } else if s == "busy"@ {
            Ok(StatusModel::Busy)
        } else {
            Err("unknown session runtime status: "@ + s)
        },
        JsonModel::Object(es) => blocked_from(
            entries_get(es, "type"@),
            entries_get(es, "kind"@),
            entries_get(es, "requestID"@),
        ),
        JsonModel::Array(a) => if a.len() == 3 {
            blocked_from(Some(a[0]), Some(a[1]), Some(a[2]))
        } else {
            Err(no_variant_text())
        },
        _ => Err(no_variant_text()),
    }
}

fn kind_str(k: SessionBlockedKind) -> (r: &'static str)
    ensures
        r@ == kind_text(k),
{
    match k {
        SessionBlockedKind::Permission => "permission",
        SessionBlockedKind::Question => "question",
    }
}

fn read_kind(v: Option<&JsonValue>) -> (r: Option<SessionBlockedKind>)
    ensures
        r == kind_of(match v {
            Some(x) => Some(x@),
            None => None,
        }),
{
    match v {
        Some(JsonValue::String(s)) => {
            if str_eq(s.as_str(), "permission") {
                Some(SessionBlockedKind::Permission)
            } else if str_eq(s.as_str(), "question") {
                Some(SessionBlockedKind::Question)
            } else {
                None
            }
        },
        _ => None,
    }
}

fn read_blocked(t: Option<&JsonValue>, k: Option<&JsonValue>, r: Option<&JsonValue>) -> (out: Result<SessionRuntimeStatus, String>)
    ensures
        match (
            out,
            blocked_from(
                match t {
                    Some(x) => Some(x@),
                    None => None,
                },
                match k {
                    Some(x) => Some(x@),
                    None => None,
                },
                match r {
                    Some(x) => Some(x@),
                    None => None,
                },
            ),
        ) {
            (Ok(s), Ok(m)) => s@ == m,
            (Err(e), Err(m)) => e@ == m,
            _ => false,
        },
{
    let type_ok = match t {
        None => true,
        Some(JsonValue::Null) => true,
        Some(JsonValue::String(_)) => true,
        _ => false,
    };
    let kind = read_kind(k);
    let req = match r {
        Some(JsonValue::String(s)) => Some(s),
        _ => None,
    };
    if !type_ok || kind.is_none() || req.is_none() {
        return Err(String::from_str("data did not match any variant of untagged enum SessionRuntimeStatusWire"));
    }
    match t {
        Some(JsonValue::String(x)) => {
            if !str_eq(x.as_str(), "blocked") {
                return Err(String::from_str("blocked status type must be 'blocked'"));
            }
        },
        _ => {},
    }
    Ok(SessionRuntimeStatus::Blocked { kind: kind.unwrap(), request_id: req.unwrap().clone() })
}

impl SessionRuntimeStatus {
    /// The status as JSON.
    pub fn to_json(&self) -> (r: JsonValue)
        ensures
            r@ == status_json(self@),
    {
        match self {
            SessionRuntimeStatus::Idle => JsonValue::text("idle"),
            SessionRuntimeStatus::Busy => JsonValue::text("busy"),
            SessionRuntimeStatus::Blocked { kind, request_id } => {
                let mut es: Vec<(String, JsonValue)> = Vec::new();
                assert(entry_models(es@) =~= Seq::<(Seq<char>, JsonModel)>::empty());
                object_push(&mut es, "type", JsonValue::text("blocked"));
                object_push(&mut es, "kind", JsonValue::text(kind_str(*kind)));
                object_push(&mut es, "requestID", JsonValue::text(request_id.as_str()));
                let ghost m = self@;
                assert(entry_models(es@) =~= status_json(m)->Object_0);
                JsonValue::Object(es)
            },
        }
    }

    /// Read a status from JSON; the error is the refusal's text.
    pub fn from_json(v: &JsonValue) -> (r: Result<SessionRuntimeStatus, String>)
        ensures
            match (r, status_from_json(v@)) {
                (Ok(s), Ok(m)) => s@ == m,
                (Err(e), Err(m)) => e@ == m,
                _ => false,
            },
    {
        match v {
            JsonValue::String(s) => {
                if str_eq(s.as_str(), "idle") {
                    Ok(SessionRuntimeStatus::Idle)
                } else if str_eq(s.as_str(), "busy") {
                    Ok(SessionRuntimeStatus::Busy)
                } else {
                    Err(String::from_str("unknown session runtime status: ").concat(s.as_str()))
                }
            },
            JsonValue::Object(_) => read_blocked(v.get("type"), v.get("kind"), v.get("requestID")),
            JsonValue::Array(a) => {
                if a.len() == 3 {
                    proof {
                        lemma_json_models_index(a@);
                    }
                    read_blocked(Some(&a[0]), Some(&a[1]), Some(&a[2]))
                } else {
                    proof {
                        lemma_json_models_index(a@);
                    }
                    Err(String::from_str("data did not match any variant of untagged enum SessionRuntimeStatusWire"))
                }
            },
            _ => Err(String::from_str("data did not match any variant of untagged enum SessionRuntimeStatusWire")),
        }
    }
}

/// Reading back what was written gives the same status.
pub proof fn law_status_json_roundtrip(s: StatusModel)
    ensures
        status_from_json(status_json(s)) == Ok::<StatusModel, Seq<char>>(s),
{
    reveal_strlit("idle");
    reveal_strlit("busy");
    reveal_strlit("type");
    reveal_strlit("kind");
    reveal_strlit("requestID");
    reveal_strlit("permission");
    reveal_strlit("question");
    reveal_strlit("blocked");
    match s {
        StatusModel::Blocked { kind, request_id } => {
            let es = status_json(s)->Object_0;
            reveal_with_fuel(entries_get, 4);
            assert(es[0].0 == "type"@);
            assert(es.drop_first()[0].0 == "kind"@);
            assert(es.drop_first().drop_first()[0].0 == "requestID"@);
            assert("kind"@ != "type"@) by {
                assert("kind"@[0] != "type"@[0]);
            }
            assert("requestID"@ != "type"@);
            assert("requestID"@ != "kind"@);
            assert(entries_get(es, "type"@) == Some(JsonModel::Str("blocked"@)));
            assert(entries_get(es, "kind"@) == Some(JsonModel::Str(kind_text(kind))));
            assert(entries_get(es, "requestID"@) == Some(JsonModel::Str(request_id)));
            assert("permission"@ != "question"@) by {
                assert("permission"@[0] != "question"@[0]);
            }
        },
        _ => {
            assert("idle"@ != "busy"@) by {
                assert("idle"@[0] != "busy"@[0]);
            }
        },
    }
}

} // verus!
