//! Prompt stream processing: the decisions taken on each provider stream
//! event, and the rows a turn persists. Reading the stream, storing rows and
//! publishing events are the caller's.

use vstd::prelude::*;
use crate::dto::{MessageRow, PartRow};
use crate::errors::SessionError;
use crate::ids::{MessageId, PartId, SessionId};
use crate::json::{JsonModel, JsonNumber, JsonValue, NumberModel, entry_models, object_push, json_text_error, json_text_value, parse_json_text};
use crate::text::{is_blank, trimmed};

verus! {

/// Lightweight sink placeholder for lifecycle stream events.
#[derive(Debug)]
pub struct RuntimeEventSink;

impl Default for RuntimeEventSink {
    fn default() -> (r: Self) {
        RuntimeEventSink
    }
}

/// One event of a provider stream, or the stream's end or cancellation.
pub enum StreamEvent {
    /// Text appended by the model.
    TextDelta { delta: String },
    /// Token usage of the turn.
    Usage { input: u64, output: u64 },
    /// The model finished the turn.
    Done,
    /// A tool call begins.
    ToolUseStart { id: String, name: String, thought_signature: Option<String> },
    /// More input text of the current tool call.
    ToolUseInputDelta { id: String, delta: String },
    /// The current tool call's input is complete.
    ToolUseEnd { id: String },
    /// Any other provider event.
    Ignored,
    /// The provider failed, with its error text.
    ProviderError { message: String },
    /// The stream ended.
    Closed,
    /// The run was cancelled.
    Cancelled,
}

/// What to do after a stream event.
pub enum StreamAction {
    /// Store this part of the assistant message, publish it, and go on.
    AppendPart { time: i64, data: JsonValue },
    /// Publish the token usage and go on.
    PublishUsage { input: u64, output: u64 },
    /// Go on.
    Continue,
    /// Publish completion; the turn is done.
    Finish,
    /// Publish cancellation; the run fails as cancelled.
    Cancel,
    /// The turn fails with this error.
    Fail(SessionError),
    /// Store this part, publish it; the turn ends with this tool call.
    ToolCall { time: i64, data: JsonValue, id: String, name: String, input: JsonValue },
}

/// How a streamed turn ended.
pub enum PromptTurnOutcome {
    /// The provider finished the turn without requesting a tool.
    Done,
    /// The provider requested a complete tool call that the runtime must run.
    ToolCall { id: String, name: String, input: JsonValue },
}

/// State of a stream: parts stored so far and the tool call being built.
pub struct PromptStream {
    seq: i64,
    tool_id: Option<String>,
    tool_name: Option<String>,
    thought_signature: Option<String>,
    input: String,
}

/// View of an optional string.
pub open spec fn ostr(o: Option<String>) -> Option<Seq<char>> {
    match o {
        Some(s) => Some(s@),
        None => None,
    }
}

/// View of a stream state.
pub struct StreamModel {
    pub seq: i64,
    pub tool_id: Option<Seq<char>>,
    pub tool_name: Option<Seq<char>>,
    pub thought_signature: Option<Seq<char>>,
    pub input: Seq<char>,
}

impl View for PromptStream {
    type V = StreamModel;

    closed spec fn view(&self) -> StreamModel {
        StreamModel {
            seq: self.seq,
            tool_id: ostr(self.tool_id),
            tool_name: ostr(self.tool_name),
            thought_signature: ostr(self.thought_signature),
            input: self.input@,
        }
    }
}

/// What `{:?}` writes for an optional string.
pub uninterp spec fn debug_opt_text(o: Option<Seq<char>>) -> Seq<char>;

/// Writes an optional string with `format!("{:?}", ..)`; the result is
/// `debug_opt_text` of the value, `None` for an absent one.
#[verifier::external_body]
fn debug_option(o: &Option<String>) -> (r: String)
    ensures
        r@ == debug_opt_text(ostr(*o)),
        o is None ==> r@ == "None"@,
{
    format!("{:?}", o)
}

/// JSON of a stored text part.
pub open spec fn text_part_json(delta: Seq<char>, seq: i64) -> JsonModel {
    JsonModel::Object(
        seq![
            ("type"@, JsonModel::Str("text"@)),
            ("text"@, JsonModel::Str(delta)),
            ("seq"@, JsonModel::Number(NumberModel::PosInt(seq as u64))),
        ],
    )
}

/// JSON of a stored tool-call part.
pub open spec fn tool_part_json(id: Seq<char>, name: Seq<char>, input: JsonModel, sig: Option<Seq<char>>, seq: i64) -> JsonModel {
    JsonModel::Object(
        seq![
            ("type"@, JsonModel::Str("tool_use"@)),
            ("id"@, JsonModel::Str(id)),
            ("name"@, JsonModel::Str(name)),
            ("input"@, input),
            ("thought_signature"@, match sig {
                Some(s) => JsonModel::Str(s),
                None => JsonModel::Null,
            }),
            ("seq"@, JsonModel::Number(NumberModel::PosInt(seq as u64))),
        ],
    )
}

fn text_part(delta: &str, seq: i64) -> (r: JsonValue)
    requires
        seq >= 0,
    ensures
        r@ == text_part_json(delta@, seq),
{
    let mut es: Vec<(String, JsonValue)> = Vec::new();
    assert(entry_models(es@) =~= Seq::<(Seq<char>, JsonModel)>::empty());
    object_push(&mut es, "type", JsonValue::text("text"));
    object_push(&mut es, "text", JsonValue::text(delta));
    object_push(&mut es, "seq", JsonValue::Number(JsonNumber::PosInt(seq as u64)));
    assert(entry_models(es@) =~= text_part_json(delta@, seq)->Object_0);
    JsonValue::Object(es)
}

fn tool_part(id: &str, name: &str, input: &JsonValue, sig: &Option<String>, seq: i64) -> (r: JsonValue)
    requires
        seq >= 0,
    ensures
        r@ == tool_part_json(id@, name@, input@, ostr(*sig), seq),
{
    let mut es: Vec<(String, JsonValue)> = Vec::new();
    assert(entry_models(es@) =~= Seq::<(Seq<char>, JsonModel)>::empty());
    object_push(&mut es, "type", JsonValue::text("tool_use"));
    object_push(&mut es, "id", JsonValue::text(id));
    object_push(&mut es, "name", JsonValue::text(name));
    object_push(&mut es, "input", input.deep_clone());
    let s = match sig {
        Some(s) => JsonValue::text(s.as_str()),
        None => JsonValue::Null,
    };
    object_push(&mut es, "thought_signature", s);
    object_push(&mut es, "seq", JsonValue::Number(JsonNumber::PosInt(seq as u64)));
    assert(entry_models(es@) =~= tool_part_json(id@, name@, input@, ostr(*sig), seq)->Object_0);
    JsonValue::Object(es)
}

fn empty_object() -> (r: JsonValue)
    ensures
        r@ == JsonModel::Object(Seq::empty()),
{
    let es: Vec<(String, JsonValue)> = Vec::new();
    assert(entry_models(es@) =~= Seq::<(Seq<char>, JsonModel)>::empty());
    JsonValue::Object(es)
}

fn same_id(cur: &Option<String>, id: &String) -> (r: bool)
    ensures
        r == (ostr(*cur) == Some(id@)),
{
    match cur {
        Some(c) => *c == *id,
        None => false,
    }
}

impl PromptStream {
    /// A stream with no part stored and no tool call begun.
    pub fn new() -> (r: Self)
        ensures
            r@ == (StreamModel {
                seq: 0,
                tool_id: None,
                tool_name: None,
                thought_signature: None,
                input: Seq::empty(),
            }),
    {
        PromptStream {
            seq: 0,
            tool_id: None,
            tool_name: None,
            thought_signature: None,
            input: String::new(),
        }
    }

    /// Whether an event at time `now` can be taken: the next part's time,
    /// `now` plus the next sequence number, fits `i64`.
    pub fn fits(&self, now: i64) -> (r: bool)
        ensures
            r == (0 <= self@.seq < i64::MAX && now >= 0 && now + self@.seq + 1 <= i64::MAX),
    {
        self.seq >= 0 && self.seq < i64::MAX && now >= 0 && now <= i64::MAX - self.seq - 1
    }

    /// Decide on one stream event at time `now` (milliseconds).
    ///
    /// Text is stored as a numbered part at `now + seq`; usage is
    /// published; completion or the stream's end finishes the turn;
    /// cancellation cancels it; a provider error fails it. A tool call is
    /// built from its start, input deltas and end; a second start before the
    /// end, or an id that is not the current call's, fails the turn. At the
    /// end, blank input becomes `{}`, other input is parsed as JSON, and
    /// the call is returned; input that is not JSON fails the turn.
    pub fn on_event(&mut self, ev: StreamEvent, now: i64) -> (r: StreamAction)
        requires
            0 <= old(self)@.seq < i64::MAX,
            now >= 0,
            now + old(self)@.seq + 1 <= i64::MAX,
        ensures
            0 <= final(self)@.seq <= old(self)@.seq + 1,
            match ev {
                StreamEvent::TextDelta { delta } => final(self)@ == (StreamModel { seq: (old(self)@.seq + 1) as i64, ..old(self)@ })
                    && (r matches StreamAction::AppendPart { time, data } && time == now + old(self)@.seq + 1
                    && data@ == text_part_json(delta@, (old(self)@.seq + 1) as i64)),
                StreamEvent::Usage { input, output } => final(self)@ == old(self)@
                    && (r matches StreamAction::PublishUsage { input: i, output: o } && i == input && o == output),
                StreamEvent::Done => final(self)@ == old(self)@ && r is Finish,
                StreamEvent::Closed => final(self)@ == old(self)@ && r is Finish,
                StreamEvent::Cancelled => final(self)@ == old(self)@ && r is Cancel,
                StreamEvent::Ignored => final(self)@ == old(self)@ && r is Continue,
                StreamEvent::ProviderError { message } => final(self)@ == old(self)@
                    && (r matches StreamAction::Fail(SessionError::Provider(m)) && m@ == message@),
                StreamEvent::ToolUseStart { id, name, thought_signature } => if old(self)@.tool_id is Some {
                    final(self)@ == old(self)@ && (r matches StreamAction::Fail(SessionError::RuntimeInternal(m))
                        && m@ == "received nested tool-use start before prior call completed"@)
                } else {
                    final(self)@ == (StreamModel {
                        tool_id: Some(id@),
                        tool_name: Some(name@),
                        thought_signature: ostr(thought_signature),
                        ..old(self)@
                    }) && r is Continue
                },
                StreamEvent::ToolUseInputDelta { id, delta } => if old(self)@.tool_id != Some(id@) {
                    final(self)@ == old(self)@ && (r matches StreamAction::Fail(SessionError::RuntimeInternal(m))
                        && m@ == "tool input delta id mismatch: expected "@ + debug_opt_text(old(self)@.tool_id)
                        + ", got "@ + id@)
                } else {
                    final(self)@ == (StreamModel { input: old(self)@.input + delta@, ..old(self)@ }) && r is Continue
                },
                StreamEvent::ToolUseEnd { id } => if old(self)@.tool_id != Some(id@) {
                    final(self)@ == old(self)@ && (r matches StreamAction::Fail(SessionError::RuntimeInternal(m))
                        && m@ == "tool end id mismatch: expected "@ + debug_opt_text(old(self)@.tool_id)
                        + ", got "@ + id@)
                } else if old(self)@.tool_name is None {
                    final(self)@ == old(self)@ && (r matches StreamAction::Fail(SessionError::RuntimeInternal(m))
                        && m@ == "tool-use end received without tool name"@)
                } else if trimmed(old(self)@.input).len() == 0 {
                    final(self)@ == (StreamModel { seq: (old(self)@.seq + 1) as i64, ..old(self)@ })
                        && (r matches StreamAction::ToolCall { time, data, id: cid, name, input }
                        && time == now + old(self)@.seq + 1 && cid@ == id@
                        && name@ == old(self)@.tool_name->Some_0 && input@ == JsonModel::Object(Seq::empty())
                        && data@ == tool_part_json(id@, name@, input@, old(self)@.thought_signature, (old(self)@.seq + 1) as i64))
                } else {
                    match json_text_value(old(self)@.input) {
                        Some(v) => final(self)@ == (StreamModel { seq: (old(self)@.seq + 1) as i64, ..old(self)@ })
                            && (r matches StreamAction::ToolCall { time, data, id: cid, name, input }
                            && time == now + old(self)@.seq + 1 && cid@ == id@
                            && name@ == old(self)@.tool_name->Some_0 && input@ == v
                            && data@ == tool_part_json(id@, name@, v, old(self)@.thought_signature, (old(self)@.seq + 1) as i64)),
                        None => final(self)@ == old(self)@ && (r matches StreamAction::Fail(SessionError::RuntimeInternal(m))
                            && m@ == "invalid tool input json for "@ + old(self)@.tool_name->Some_0 + ": "@
                            + json_text_error(old(self)@.input)),
                    }
                },
            },
    {
        match ev {
            StreamEvent::TextDelta { delta } => {
                self.seq = self.seq + 1;
                let data = text_part(delta.as_str(), self.seq);
                StreamAction::AppendPart { time: now + self.seq, data }
            },
            StreamEvent::Usage { input, output } => StreamAction::PublishUsage { input, output },
            StreamEvent::Done => StreamAction::Finish,
            StreamEvent::Closed => StreamAction::Finish,
            StreamEvent::Cancelled => StreamAction::Cancel,
            StreamEvent::Ignored => StreamAction::Continue,
            StreamEvent::ProviderError { message } => StreamAction::Fail(SessionError::Provider(message)),
            StreamEvent::ToolUseStart { id, name, thought_signature } => {
                if self.tool_id.is_some() {
                    return StreamAction::Fail(
                        SessionError::RuntimeInternal(
                            String::from_str("received nested tool-use start before prior call completed"),
                        ),
                    );
                }
                self.tool_id = Some(id);
                self.tool_name = Some(name);
                self.thought_signature = thought_signature;
                StreamAction::Continue
            },
            StreamEvent::ToolUseInputDelta { id, delta } => {
                if !same_id(&self.tool_id, &id) {
                    let expected = debug_option(&self.tool_id);
                    return StreamAction::Fail(
                        SessionError::RuntimeInternal(
                            String::from_str("tool input delta id mismatch: expected ").concat(
                                expected.as_str(),
                            ).concat(", got ").concat(id.as_str()),
                        ),
                    );
                }
                let mut input = String::new();
                std::mem::swap(&mut input, &mut self.input);
                self.input = input.concat(delta.as_str());
                StreamAction::Continue
            },
            StreamEvent::ToolUseEnd { id } => {
                if !same_id(&self.tool_id, &id) {
                    let expected = debug_option(&self.tool_id);
                    return StreamAction::Fail(
                        SessionError::RuntimeInternal(
                            String::from_str("tool end id mismatch: expected ").concat(
                                expected.as_str(),
                            ).concat(", got ").concat(id.as_str()),
                        ),
                    );
                }
                let name = match &self.tool_name {
                    None => {
                        return StreamAction::Fail(
                            SessionError::RuntimeInternal(
                                String::from_str("tool-use end received without tool name"),
                            ),
                        );
                    },
                    Some(n) => n.clone(),
                };
                if is_blank(self.input.as_str()) {
                    self.seq = self.seq + 1;
                    let input = empty_object();
                    let data = tool_part(id.as_str(), name.as_str(), &input, &self.thought_signature, self.seq);
                    StreamAction::ToolCall { time: now + self.seq, data, id, name, input }
                } else {
                    let parsed = parse_json_text(self.input.as_str());
                    self.finish_tool_use(parsed, now)
                }
            },
        }
    }

    /// Finish a tool call whose input text was parsed: a parse failure
    /// fails the turn naming the tool; a value is stored as the call's part
    /// and the call is returned.
    pub fn finish_tool_use(&mut self, parsed: Result<JsonValue, String>, now: i64) -> (r: StreamAction)
        requires
            old(self)@.tool_id is Some,
            old(self)@.tool_name is Some,
            0 <= old(self)@.seq < i64::MAX,
            now >= 0,
            now + old(self)@.seq + 1 <= i64::MAX,
        ensures
            match parsed {
                Err(e) => final(self)@ == old(self)@ && (r matches StreamAction::Fail(SessionError::RuntimeInternal(m))
                    && m@ == "invalid tool input json for "@ + old(self)@.tool_name->Some_0 + ": "@ + e@),
                Ok(v) => final(self)@ == (StreamModel { seq: (old(self)@.seq + 1) as i64, ..old(self)@ })
                    && (r matches StreamAction::ToolCall { time, data, id, name, input }
                    && time == now + old(self)@.seq + 1 && id@ == old(self)@.tool_id->Some_0
                    && name@ == old(self)@.tool_name->Some_0 && input@ == v@
                    && data@ == tool_part_json(id@, name@, v@, old(self)@.thought_signature, (old(self)@.seq + 1) as i64)),
            },
    {
        let name = match &self.tool_name {
            Some(n) => n.clone(),
            None => String::new(),
        };
        let id = match &self.tool_id {
            Some(i) => i.clone(),
            None => String::new(),
        };
        match parsed {
            Err(e) => StreamAction::Fail(
                SessionError::RuntimeInternal(
                    String::from_str("invalid tool input json for ").concat(name.as_str()).concat(
                        ": ",
                    ).concat(e.as_str()),
                ),
            ),
            Ok(input) => {
                self.seq = self.seq + 1;
                let data = tool_part(id.as_str(), name.as_str(), &input, &self.thought_signature, self.seq);
                StreamAction::ToolCall { time: now + self.seq, data, id, name, input }
            },
        }
    }
}

/// A JSON object with one string field.
fn one_field(key: &str, value: &str) -> (r: JsonValue)
    ensures
        r@ == JsonModel::Object(seq![(key@, JsonModel::Str(value@))]),
{
    let mut es: Vec<(String, JsonValue)> = Vec::new();
    assert(entry_models(es@) =~= Seq::<(Seq<char>, JsonModel)>::empty());
    object_push(&mut es, key, JsonValue::text(value));
    assert(entry_models(es@) =~= seq![(key@, JsonModel::Str(value@))]);
    JsonValue::Object(es)
}

/// The rows of a tool result: a `tool` message and one `tool_result` part
/// naming the call, with the result's content and error flag.
pub fn tool_result_rows(
    session_id: SessionId,
    message_id: MessageId,
    part_id: PartId,
    now: i64,
    call_id: &str,
    content: &str,
    is_error: bool,
) -> (r: (MessageRow, PartRow))
    ensures
        r.0.id == message_id && r.0.session_id == session_id && r.0.time_created == now
            && r.0.time_updated == now && r.0.data@ == JsonModel::Object(seq![("role"@, JsonModel::Str("tool"@))]),
        r.1.id == part_id && r.1.message_id == message_id && r.1.session_id == session_id
            && r.1.time_created == now && r.1.time_updated == now && r.1.data@ == JsonModel::Object(
            seq![
                ("type"@, JsonModel::Str("tool_result"@)),
                ("tool_use_id"@, JsonModel::Str(call_id@)),
                ("content"@, JsonModel::Str(content@)),
                ("is_error"@, JsonModel::Bool(is_error)),
            ],
        ),
{
    let msg = MessageRow {
        id: message_id,
        session_id,
        time_created: now,
        time_updated: now,
        data: one_field("role", "tool"),
    };
    let mut es: Vec<(String, JsonValue)> = Vec::new();
    assert(entry_models(es@) =~= Seq::<(Seq<char>, JsonModel)>::empty());
    object_push(&mut es, "type", JsonValue::text("tool_result"));
    object_push(&mut es, "tool_use_id", JsonValue::text(call_id));
    object_push(&mut es, "content", JsonValue::text(content));
    object_push(&mut es, "is_error", JsonValue::Bool(is_error));
    let ghost em = entry_models(es@);
    assert(em =~= seq![
        ("type"@, JsonModel::Str("tool_result"@)),
        ("tool_use_id"@, JsonModel::Str(call_id@)),
        ("content"@, JsonModel::Str(content@)),
        ("is_error"@, JsonModel::Bool(is_error)),
    ]);
    let part = PartRow {
        id: part_id,
        message_id,
        session_id,
        time_created: now,
        time_updated: now,
        data: JsonValue::Object(es),
    };
    assert(part.data@ == JsonModel::Object(em));
    (msg, part)
}

/// The rows of a user turn: a `user` message and one text part.
pub fn user_turn_rows(session_id: SessionId, message_id: MessageId, part_id: PartId, now: i64, text: &str) -> (r: (MessageRow, PartRow))
    ensures
        r.0.id == message_id && r.0.session_id == session_id && r.0.time_created == now
            && r.0.time_updated == now && r.0.data@ == JsonModel::Object(seq![("role"@, JsonModel::Str("user"@))]),
        r.1.id == part_id && r.1.message_id == message_id && r.1.session_id == session_id
            && r.1.time_created == now && r.1.time_updated == now && r.1.data@ == JsonModel::Object(
            seq![("type"@, JsonModel::Str("text"@)), ("text"@, JsonModel::Str(text@))],
        ),
{
    let msg = MessageRow {
        id: message_id,
        session_id,
        time_created: now,
        time_updated: now,
        data: one_field("role", "user"),
    };
    let mut es: Vec<(String, JsonValue)> = Vec::new();
    assert(entry_models(es@) =~= Seq::<(Seq<char>, JsonModel)>::empty());
    object_push(&mut es, "type", JsonValue::text("text"));
    object_push(&mut es, "text", JsonValue::text(text));
    let ghost em = entry_models(es@);
    assert(em =~= seq![("type"@, JsonModel::Str("text"@)), ("text"@, JsonModel::Str(text@))]);
    let part = PartRow {
        id: part_id,
        message_id,
        session_id,
        time_created: now,
        time_updated: now,
        data: JsonValue::Object(es),
    };
    (msg, part)
}

/// The assistant message shell of a turn, one millisecond after the user
/// turn.
pub fn assistant_shell_row(session_id: SessionId, message_id: MessageId, now: i64) -> (r: MessageRow)
    requires
        now < i64::MAX,
    ensures
        r.id == message_id && r.session_id == session_id && r.time_created == now + 1
            && r.time_updated == now + 1 && r.data@ == JsonModel::Object(seq![("role"@, JsonModel::Str("assistant"@))]),
{
    MessageRow {
        id: message_id,
        session_id,
        time_created: now + 1,
        time_updated: now + 1,
        data: one_field("role", "assistant"),
    }
}

} // verus!
