//! Translation of bus events into the wire events of the event stream.

use vstd::prelude::*;
use crate::bus::BusEvent;
use crate::ids::{Uid, uuid_text};
use crate::json::{JsonModel, JsonNumber, JsonValue, NumberModel, entry_models, entries_get, object_push};

verus! {

/// A wire event: `{"type": event_type, "properties": properties}`.
#[derive(Debug)]
pub struct ServerEventPayload {
    /// Event type, e.g. `message.added`.
    pub event_type: String,
    /// Event properties.
    pub properties: JsonValue,
}

/// A JSON string holding an id's text.
pub open spec fn id_json(id: Uid) -> JsonModel {
    JsonModel::Str(uuid_text(id.0))
}

/// A JSON non-negative integer.
pub open spec fn uint_json(n: u64) -> JsonModel {
    JsonModel::Number(NumberModel::PosInt(n))
}

/// The wire event of a bus event; internal events have none.
pub open spec fn translate_spec(ev: BusEvent) -> Option<(Seq<char>, Seq<(Seq<char>, JsonModel)>)> {
    match ev {
        BusEvent::SessionUpdated { session_id } => Some(
            ("session.updated"@, seq![("session_id"@, id_json(session_id))]),
        ),
        BusEvent::MessageAdded { session_id, message_id } => Some(
            (
                "message.added"@,
                seq![("session_id"@, id_json(session_id)), ("message_id"@, id_json(message_id))],
            ),
        ),
        BusEvent::PartAdded { session_id, message_id, part_id } => Some(
            (
                "part.added"@,
                seq![
                    ("session_id"@, id_json(session_id)),
                    ("message_id"@, id_json(message_id)),
                    ("part_id"@, id_json(part_id)),
                ],
            ),
        ),
        BusEvent::ToolStarted { session_id, tool, call_id } => Some(
            (
                "tool.started"@,
                seq![
                    ("session_id"@, id_json(session_id)),
                    ("tool"@, JsonModel::Str(tool@)),
                    ("call_id"@, JsonModel::Str(call_id@)),
                ],
            ),
        ),
        BusEvent::ToolFinished { session_id, tool, call_id, ok } => Some(
            (
                "tool.finished"@,
                seq![
                    ("session_id"@, id_json(session_id)),
                    ("tool"@, JsonModel::Str(tool@)),
                    ("call_id"@, JsonModel::Str(call_id@)),
                    ("ok"@, JsonModel::Bool(ok)),
                ],
            ),
        ),
        BusEvent::ProviderTokensUsed { session_id, provider, model, input, output } => Some(
            (
                "provider.tokens.used"@,
                seq![
                    ("session_id"@, id_json(session_id)),
                    ("provider"@, JsonModel::Str(provider@)),
                    ("model"@, JsonModel::Str(model@)),
                    ("input"@, uint_json(input)),
                    ("output"@, uint_json(output)),
                ],
            ),
        ),
        BusEvent::SessionError { session_id, error } => Some(
            (
                "session.error"@,
                seq![("session_id"@, id_json(session_id)), ("error"@, JsonModel::Str(error@))],
            ),
        ),
        _ => None,
    }
}

fn id_value(id: Uid) -> (r: JsonValue)
    ensures
        r@ == id_json(id),
{
    JsonValue::String(id.text())
}

fn payload(event_type: &str, es: Vec<(String, JsonValue)>) -> (r: ServerEventPayload)
    ensures
        r.event_type@ == event_type@,
        r.properties@ == JsonModel::Object(entry_models(es@)),
{
    ServerEventPayload { event_type: event_type.to_owned(), properties: JsonValue::Object(es) }
}

impl ServerEventPayload {
    /// Sent first on every stream.
    pub fn connected() -> (r: Self)
        ensures
            r.event_type@ == "server.connected"@,
            r.properties@ == JsonModel::Object(Seq::empty()),
    {
        let es: Vec<(String, JsonValue)> = Vec::new();
        assert(entry_models(es@) =~= Seq::<(Seq<char>, JsonModel)>::empty());
        payload("server.connected", es)
    }

    /// Sent when the stream is idle.
    pub fn heartbeat() -> (r: Self)
        ensures
            r.event_type@ == "server.heartbeat"@,
            r.properties@ == JsonModel::Object(Seq::empty()),
    {
        let es: Vec<(String, JsonValue)> = Vec::new();
        assert(entry_models(es@) =~= Seq::<(Seq<char>, JsonModel)>::empty());
        payload("server.heartbeat", es)
    }
}

/// Translate a bus event into its wire event; internal events give `None`.
pub fn translate_bus_event(ev: &BusEvent) -> (r: Option<ServerEventPayload>)
    ensures
        match (r, translate_spec(*ev)) {
            (None, None) => true,
            (Some(p), Some((t, es))) => p.event_type@ == t && p.properties@ == JsonModel::Object(es),
            _ => false,
        },
{
    let mut es: Vec<(String, JsonValue)> = Vec::new();
    assert(entry_models(es@) =~= Seq::<(Seq<char>, JsonModel)>::empty());
    match ev {
        BusEvent::SessionUpdated { session_id } => {
            object_push(&mut es, "session_id", id_value(*session_id));
            let ghost m = entry_models(es@);
            assert(m =~= translate_spec(*ev)->Some_0.1);
            Some(payload("session.updated", es))
        },
        BusEvent::MessageAdded { session_id, message_id } => {
            object_push(&mut es, "session_id", id_value(*session_id));
            object_push(&mut es, "message_id", id_value(*message_id));
            let ghost m = entry_models(es@);
            assert(m =~= translate_spec(*ev)->Some_0.1);
            Some(payload("message.added", es))
        },
        BusEvent::PartAdded { session_id, message_id, part_id } => {
            object_push(&mut es, "session_id", id_value(*session_id));
            object_push(&mut es, "message_id", id_value(*message_id));
            object_push(&mut es, "part_id", id_value(*part_id));
            let ghost m = entry_models(es@);
            assert(m =~= translate_spec(*ev)->Some_0.1);
            Some(payload("part.added", es))
        },
        BusEvent::ToolStarted { session_id, tool, call_id } => {
            object_push(&mut es, "session_id", id_value(*session_id));
            object_push(&mut es, "tool", JsonValue::text(tool.as_str()));
            object_push(&mut es, "call_id", JsonValue::text(call_id.as_str()));
            let ghost m = entry_models(es@);
            assert(m =~= translate_spec(*ev)->Some_0.1);
            Some(payload("tool.started", es))
        },
        BusEvent::ToolFinished { session_id, tool, call_id, ok } => {
            object_push(&mut es, "session_id", id_value(*session_id));
            object_push(&mut es, "tool", JsonValue::text(tool.as_str()));
            object_push(&mut es, "call_id", JsonValue::text(call_id.as_str()));
            object_push(&mut es, "ok", JsonValue::Bool(*ok));
            let ghost m = entry_models(es@);
            assert(m =~= translate_spec(*ev)->Some_0.1);
            Some(payload("tool.finished", es))
        },
        BusEvent::ProviderTokensUsed { session_id, provider, model, input, output } => {
            object_push(&mut es, "session_id", id_value(*session_id));
            object_push(&mut es, "provider", JsonValue::text(provider.as_str()));
            object_push(&mut es, "model", JsonValue::text(model.as_str()));
            object_push(&mut es, "input", JsonValue::Number(JsonNumber::PosInt(*input)));
            object_push(&mut es, "output", JsonValue::Number(JsonNumber::PosInt(*output)));
            let ghost m = entry_models(es@);
            assert(m =~= translate_spec(*ev)->Some_0.1);
            Some(payload("provider.tokens.used", es))
        },
        BusEvent::SessionError { session_id, error } => {
            object_push(&mut es, "session_id", id_value(*session_id));
            object_push(&mut es, "error", JsonValue::text(error.as_str()));
            let ghost m = entry_models(es@);
            assert(m =~= translate_spec(*ev)->Some_0.1);
            Some(payload("session.error", es))
        },
        _ => None,
    }
}

/// A finished tool is streamed as `tool.finished` whose `ok` property is
/// the bus event's success flag, so a failed tool is reported as failed;
/// its tool name and call id are those of the event.
pub proof fn law_tool_finished_reports_outcome(session_id: Uid, tool: String, call_id: String, ok: bool)
    ensures
        ({
            let ev = BusEvent::ToolFinished { session_id, tool, call_id, ok };
            translate_spec(ev) matches Some((t, es)) && t == "tool.finished"@
                && entries_get(es, "ok"@) == Some(JsonModel::Bool(ok))
                && entries_get(es, "tool"@) == Some(JsonModel::Str(tool@))
                && entries_get(es, "call_id"@) == Some(JsonModel::Str(call_id@))
        }),
{
    reveal_strlit("ok");
    reveal_strlit("tool");
    reveal_strlit("call_id");
    reveal_strlit("session_id");
    reveal_with_fuel(entries_get, 5);
    let ev = BusEvent::ToolFinished { session_id, tool, call_id, ok };
    let es = translate_spec(ev)->Some_0.1;
    assert("ok"@ != "session_id"@) by { assert("ok"@[0] != "session_id"@[0]); }
    assert("ok"@ != "tool"@) by { assert("ok"@[0] != "tool"@[0]); }
    assert("ok"@ != "call_id"@) by { assert("ok"@[0] != "call_id"@[0]); }
    assert("tool"@ != "session_id"@) by { assert("tool"@[0] != "session_id"@[0]); }
    assert("call_id"@ != "session_id"@) by { assert("call_id"@[0] != "session_id"@[0]); }
    assert("call_id"@ != "tool"@) by { assert("call_id"@[0] != "tool"@[0]); }
    assert(es.drop_first()[0].0 == "tool"@);
    assert(es.drop_first().drop_first()[0].0 == "call_id"@);
    assert(es.drop_first().drop_first().drop_first()[0].0 == "ok"@);
}

} // verus!
