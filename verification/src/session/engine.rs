//! Session engine decisions: the provider tool gate, permission patterns of
//! tool calls, questions embedded in tool input, model resolution, status
//! reporting and cancellation outcomes.

use vstd::prelude::*;
use crate::errors::SessionError;
use crate::json::{JsonModel, JsonValue, entry_index, entry_models, json_models, lemma_entry_index, lemma_entry_models_index, lemma_json_models_index};
use crate::session::types::{QuestionInfo, QuestionInfoModel, QuestionOption, infos_view, option_view};
use crate::text::{decimal, decimal_string, str_eq};
use crate::dto::{MessageWithParts, PartRow};
use crate::ids::{SessionId, uuid_text};
use crate::seqs::{collect_some, lemma_collect_some_push};
use crate::session::model::{ContentModel, ContentPart, ModelMessage, message_view};
use crate::session::types::{
    PermissionRequest, QuestionRequest, SessionBlockedKind, SessionRuntimeStatus, StatusModel,
};
use crate::session::run_state::RunSnapshot;
use crate::keyed::{pair_keys, pair_map, upsert};
use crate::ids::MessageId;
use crate::session::types::{PermissionRequestModel, QuestionRequestModel, RuntimeToolCallRef, DetachedPromptAccepted};
use crate::text::strings_view;
use crate::json::object_push;
use crate::session::runtime::{PromptTurnOutcome, ostr};
use crate::errors::{StorageError, storage_error_text};
use crate::ids::ProjectId;

verus! {

/// Providers whose adapters can replay persisted tool history losslessly.
pub open spec fn supports_runtime_tools(provider_id: Seq<char>) -> bool {
    provider_id == "anthropic"@ || provider_id == "google"@
}

/// Whether the runtime tool loop is enabled for a provider.
pub fn provider_supports_runtime_tools(provider_id: &str) -> (r: bool)
    ensures
        r == supports_runtime_tools(provider_id@),
{
    str_eq(provider_id, "anthropic") || str_eq(provider_id, "google")
}

/// Permission patterns asked for a tool call: `bash:{command}` for a bash
/// call with a string command, `{name}:*` otherwise.
pub open spec fn tool_patterns(name: Seq<char>, input: JsonModel) -> Seq<Seq<char>> {
    if name == "bash"@ && input.field_str("command"@) is Some {
        seq!["bash:"@ + input.field_str("command"@)->Some_0]
    } else {
        seq![name + ":*"@]
    }
}

/// Permission patterns asked for a tool call.
pub fn permission_patterns_for_tool_call(name: &str, input: &JsonValue) -> (r: Vec<String>)
    ensures
        r@.map_values(|s: String| s@) == tool_patterns(name@, input@),
{
    let mut out: Vec<String> = Vec::new();
    if str_eq(name, "bash") {
        match input.get_str("command") {
            Some(cmd) => {
                out.push(String::from_str("bash:").concat(cmd.as_str()));
                assert(out@.map_values(|s: String| s@) =~= tool_patterns(name@, input@));
                return out;
            },
            None => {},
        }
    }
    out.push(String::from_str(name).concat(":*"));
    assert(out@.map_values(|s: String| s@) =~= tool_patterns(name@, input@));
    out
}

/// Prefix of an option error.
pub open spec fn option_where(qi: nat, oi: nat) -> Seq<char> {
    "question entry "@ + decimal(qi) + " option "@ + decimal(oi)
}

/// A question option read from JSON: string `label` and `description`.
pub open spec fn option_spec(qi: nat, oi: nat, v: JsonModel) -> Result<(Seq<char>, Seq<char>), Seq<char>> {
    match v.field_str("label"@) {
        None => Err(option_where(qi, oi) + " missing string field 'label'"@),
        Some(label) => match v.field_str("description"@) {
            None => Err(option_where(qi, oi) + " missing string field 'description'"@),
            Some(d) => Ok((label, d)),
        },
    }
}

/// The options of question `qi`, read in order; the first failure wins.
pub open spec fn options_spec(qi: nat, opts: Seq<JsonModel>) -> Result<Seq<(Seq<char>, Seq<char>)>, Seq<char>>
    decreases opts.len(),
{
    if opts.len() == 0 {
        Ok(Seq::empty())
    } else {
        match options_spec(qi, opts.drop_last()) {
            Err(e) => Err(e),
            Ok(acc) => match option_spec(qi, (opts.len() - 1) as nat, opts.last()) {
                Err(e) => Err(e),
                Ok(o) => Ok(acc.push(o)),
            },
        }
    }
}

/// A question read from JSON: string `question` and `header`, an
/// `options` array, and optional boolean `multiple` and `custom`.
pub open spec fn info_spec(qi: nat, v: JsonModel) -> Result<QuestionInfoModel, Seq<char>> {
    match v.field_str("question"@) {
        None => Err("question entry "@ + decimal(qi) + " missing string field 'question'"@),
        Some(q) => match v.field_str("header"@) {
            None => Err("question entry "@ + decimal(qi) + " missing string field 'header'"@),
            Some(h) => match v.field_array("options"@) {
                None => Err("question entry "@ + decimal(qi) + " missing array field 'options'"@),
                Some(opts) => match options_spec(qi, opts) {
                    Err(e) => Err(e),
                    Ok(os) => Ok(
                        QuestionInfoModel {
                            question: q,
                            header: h,
                            options: os,
                            multiple: v.field_bool("multiple"@),
                            custom: v.field_bool("custom"@),
                        },
                    ),
                },
            },
        },
    }
}

/// The questions of a list, read in order; the first failure wins.
pub open spec fn infos_spec(qs: Seq<JsonModel>) -> Result<Seq<QuestionInfoModel>, Seq<char>>
    decreases qs.len(),
{
    if qs.len() == 0 {
        Ok(Seq::empty())
    } else {
        match infos_spec(qs.drop_last()) {
            Err(e) => Err(e),
            Ok(acc) => match info_spec((qs.len() - 1) as nat, qs.last()) {
                Err(e) => Err(e),
                Ok(i) => Ok(acc.push(i)),
            },
        }
    }
}

fn where_option(qi: usize, oi: usize) -> (r: String)
    ensures
        r@ == option_where(qi as nat, oi as nat),
{
    let a = decimal_string(qi as u64);
    let b = decimal_string(oi as u64);
    String::from_str("question entry ").concat(a.as_str()).concat(" option ").concat(b.as_str())
}

/// Read one question option.
pub fn parse_runtime_question_option(question_index: usize, option_index: usize, value: &JsonValue) -> (r: Result<QuestionOption, SessionError>)
    ensures
        match (r, option_spec(question_index as nat, option_index as nat, value@)) {
            (Ok(o), Ok(m)) => option_view(o) == m,
            (Err(e), Err(m)) => e matches SessionError::RuntimeInternal(t) && t@ == m,
            _ => false,
        },
{
    let label = match value.get_str("label") {
        None => {
            let w = where_option(question_index, option_index);
            return Err(SessionError::RuntimeInternal(w.concat(" missing string field 'label'")));
        },
        Some(l) => l.clone(),
    };
    let description = match value.get_str("description") {
        None => {
            let w = where_option(question_index, option_index);
            return Err(
                SessionError::RuntimeInternal(w.concat(" missing string field 'description'")),
            );
        },
        Some(d) => d.clone(),
    };
    Ok(QuestionOption { label, description })
}

/// Read one question.
pub fn parse_runtime_question_info(index: usize, value: &JsonValue) -> (r: Result<QuestionInfo, SessionError>)
    ensures
        match (r, info_spec(index as nat, value@)) {
            (Ok(q), Ok(m)) => q@ == m,
            (Err(e), Err(m)) => e matches SessionError::RuntimeInternal(t) && t@ == m,
            _ => false,
        },
{
    let question = match value.get_str("question") {
        None => {
            let n = decimal_string(index as u64);
            return Err(
                SessionError::RuntimeInternal(
                    String::from_str("question entry ").concat(n.as_str()).concat(
                        " missing string field 'question'",
                    ),
                ),
            );
        },
        Some(q) => q.clone(),
    };
    let header = match value.get_str("header") {
        None => {
            let n = decimal_string(index as u64);
            return Err(
                SessionError::RuntimeInternal(
                    String::from_str("question entry ").concat(n.as_str()).concat(
                        " missing string field 'header'",
                    ),
                ),
            );
        },
        Some(h) => h.clone(),
    };
    let opts = match value.get_array("options") {
        None => {
            let n = decimal_string(index as u64);
            return Err(
                SessionError::RuntimeInternal(
                    String::from_str("question entry ").concat(n.as_str()).concat(
                        " missing array field 'options'",
                    ),
                ),
            );
        },
        Some(a) => a,
    };
    proof {
        lemma_json_models_index(opts@);
    }
    let ghost om = json_models(opts@);
    let mut options: Vec<QuestionOption> = Vec::new();
    let mut k: usize = 0;
    assert(om.take(0) =~= Seq::<JsonModel>::empty());
    assert(options@.map_values(|o: QuestionOption| option_view(o)) =~= Seq::<(Seq<char>, Seq<char>)>::empty());
    while k < opts.len()
        invariant
            k <= opts.len(),
            om == json_models(opts@),
            om.len() == opts.len(),
            forall|j: int| 0 <= j < opts.len() ==> #[trigger] om[j] == opts@[j]@,
            value@.field_str("question"@) == Some(question@),
            value@.field_str("header"@) == Some(header@),
            value@.field_array("options"@) == Some(om),
            options_spec(index as nat, om.take(k as int)) == Ok::<Seq<(Seq<char>, Seq<char>)>, Seq<char>>(
                options@.map_values(|o: QuestionOption| option_view(o)),
            ),
        decreases opts.len() - k,
    {
        assert(om.take(k + 1).drop_last() =~= om.take(k as int));
        assert(om.take(k + 1).last() == opts@[k as int]@);
        match parse_runtime_question_option(index, k, &opts[k]) {
            Err(e) => {
                proof {
                    lemma_options_prefix_err(index as nat, om, (k + 1) as nat);
                }
                return Err(e);
            },
            Ok(o) => {
                let ghost before = options@;
                options.push(o);
                assert(options@.map_values(|o: QuestionOption| option_view(o)) =~= before.map_values(
                    |o: QuestionOption| option_view(o),
                ).push(option_view(o)));
            },
        }
        k = k + 1;
    }
    assert(om.take(opts.len() as int) =~= om);
    let multiple = value.get_bool("multiple");
    let custom = value.get_bool("custom");
    Ok(QuestionInfo { question, header, options, multiple, custom })
}

/// A failure among the first `n` options is the failure of all of them.
proof fn lemma_options_prefix_err(qi: nat, opts: Seq<JsonModel>, n: nat)
    requires
        n <= opts.len(),
        options_spec(qi, opts.take(n as int)) is Err,
    ensures
        options_spec(qi, opts) == options_spec(qi, opts.take(n as int)),
    decreases opts.len() - n,
{
    if n < opts.len() {
        assert(opts.take((n + 1) as int).drop_last() =~= opts.take(n as int));
        lemma_options_prefix_err(qi, opts, n + 1);
    } else {
        assert(opts.take(n as int) =~= opts);
    }
}

/// A failure among the first `n` questions is the failure of all of them.
proof fn lemma_infos_prefix_err(qs: Seq<JsonModel>, n: nat)
    requires
        n <= qs.len(),
        infos_spec(qs.take(n as int)) is Err,
    ensures
        infos_spec(qs) == infos_spec(qs.take(n as int)),
    decreases qs.len() - n,
{
    if n < qs.len() {
        assert(qs.take((n + 1) as int).drop_last() =~= qs.take(n as int));
        lemma_infos_prefix_err(qs, n + 1);
    } else {
        assert(qs.take(n as int) =~= qs);
    }
}

/// The key under which a tool input embeds questions.
pub open spec fn question_key() -> Seq<char> {
    "_opencode_question"@
}

/// A tool input without its embedded-questions entry, and the questions it
/// embedded: `None` when the input is not an object or has no such entry;
/// an error when the entry has no `questions` array or a question is
/// malformed.
pub open spec fn take_questions_spec(input: JsonModel) -> (JsonModel, Result<Option<Seq<QuestionInfoModel>>, Seq<char>>) {
    match input {
        JsonModel::Object(es) => match entry_index(es, question_key()) {
            None => (input, Ok(None)),
            Some(i) => {
                let rest = JsonModel::Object(es.remove(i));
                match es[i].1.field_array("questions"@) {
                    None => (rest, Err("_opencode_question payload must include a questions array"@)),
                    Some(qs) => match infos_spec(qs) {
                        Err(e) => (rest, Err(e)),
                        Ok(infos) => (rest, Ok(Some(infos))),
                    },
                }
            },
        },
        _ => (input, Ok(None)),
    }
}

/// Read the questions in a list.
fn parse_question_list(qs: &Vec<JsonValue>) -> (r: Result<Vec<QuestionInfo>, SessionError>)
    ensures
        match (r, infos_spec(json_models(qs@))) {
            (Ok(v), Ok(m)) => infos_view(v@) == m,
            (Err(e), Err(m)) => e matches SessionError::RuntimeInternal(t) && t@ == m,
            _ => false,
        },
{
    proof {
        lemma_json_models_index(qs@);
    }
    let ghost qm = json_models(qs@);
    let mut out: Vec<QuestionInfo> = Vec::new();
    let mut k: usize = 0;
    assert(qm.take(0) =~= Seq::<JsonModel>::empty());
    assert(infos_view(out@) =~= Seq::<QuestionInfoModel>::empty());
    while k < qs.len()
        invariant
            k <= qs.len(),
            qm == json_models(qs@),
            qm.len() == qs.len(),
            forall|j: int| 0 <= j < qs.len() ==> #[trigger] qm[j] == qs@[j]@,
            infos_spec(qm.take(k as int)) == Ok::<Seq<QuestionInfoModel>, Seq<char>>(infos_view(out@)),
        decreases qs.len() - k,
    {
        assert(qm.take(k + 1).drop_last() =~= qm.take(k as int));
        assert(qm.take(k + 1).last() == qs@[k as int]@);
        match parse_runtime_question_info(k, &qs[k]) {
            Err(e) => {
                proof {
                    lemma_infos_prefix_err(qm, (k + 1) as nat);
                }
                return Err(e);
            },
            Ok(q) => {
                let ghost before = out@;
                out.push(q);
                assert(infos_view(out@) =~= infos_view(before).push(q@));
            },
        }
        k = k + 1;
    }
    assert(qm.take(qs.len() as int) =~= qm);
    Ok(out)
}

/// Take the questions embedded in a tool input out of it.
pub fn take_runtime_questions(input: &mut JsonValue) -> (r: Result<Option<Vec<QuestionInfo>>, SessionError>)
    ensures
        final(input)@ == take_questions_spec(old(input)@).0,
        match (r, take_questions_spec(old(input)@).1) {
            (Ok(None), Ok(None)) => true,
            (Ok(Some(v)), Ok(Some(m))) => infos_view(v@) == m,
            (Err(e), Err(m)) => e matches SessionError::RuntimeInternal(t) && t@ == m,
            _ => false,
        },
{
    let mut taken = JsonValue::Null;
    std::mem::swap(&mut taken, input);
    let mut es = match taken {
        JsonValue::Object(es) => es,
        other => {
            *input = other;
            return Ok(None);
        },
    };
    proof {
        lemma_entry_models_index(es@);
    }
    let ghost em = entry_models(es@);
    proof {
        reveal_strlit("_opencode_question");
        lemma_entry_index(em, question_key());
    }
    let i = match crate::json::find_entry(&es, "_opencode_question") {
        None => {
            *input = JsonValue::Object(es);
            return Ok(None);
        },
        Some(i) => i,
    };
    let ghost before = es@;
    let (_, payload) = es.remove(i);
    proof {
        lemma_entry_models_index(es@);
        assert(entry_models(es@) =~= em.remove(i as int));
    }
    *input = JsonValue::Object(es);
    match payload.get_array("questions") {
        None => Err(
            SessionError::RuntimeInternal(
                String::from_str("_opencode_question payload must include a questions array"),
            ),
        ),
        Some(qs) => match parse_question_list(qs) {
            Err(e) => Err(e),
            Ok(v) => Ok(Some(v)),
        },
    }
}

/// The content part a stored part replays as: text parts with text, tool
/// calls with an id and a name (input `{}` when absent), tool results with
/// the id they answer (content empty when absent); anything else is
/// skipped.
pub open spec fn part_content(data: JsonModel) -> Option<ContentModel> {
    match data.field_str("type"@) {
        None => None,
        Some(t) => if t == "text"@ {
            match data.field_str("text"@) {
                Some(x) => Some(ContentModel::Text { text: x }),
                None => None,
            }
        } else if t == "tool_use"@ {
            match (data.field_str("id"@), data.field_str("name"@)) {
                (Some(i), Some(n)) => Some(
                    ContentModel::ToolUse {
                        id: i,
                        name: n,
                        input: match data.field("input"@) {
                            Some(v) => v,
                            None => JsonModel::Object(Seq::empty()),
                        },
                        thought_signature: data.field_str("thought_signature"@),
                    },
                ),
                _ => None,
            }
        } else if t == "tool_result"@ {
            match data.field_str("tool_use_id"@) {
                Some(u) => Some(
                    ContentModel::ToolResult {
                        tool_use_id: u,
                        content: match data.field_str("content"@) {
                            Some(c) => c,
                            None => Seq::empty(),
                        },
                    },
                ),
                None => None,
            }
        } else {
            None
        }
    }
}

/// Content of a stored part.
pub open spec fn part_fn() -> spec_fn(PartRow) -> Option<ContentModel> {
    |p: PartRow| part_content(p.data@)
}

/// The message a stored message replays as: its `role` (`user` when
/// absent) and its replayable parts; a message with none is skipped.
pub open spec fn message_replay(m: MessageWithParts) -> Option<(Seq<char>, Seq<ContentModel>)> {
    let content = collect_some(m.parts@, part_fn());
    if content.len() == 0 {
        None
    } else {
        Some(
            (
                match m.info.data@.field_str("role"@) {
                    Some(r) => r,
                    None => "user"@,
                },
                content,
            ),
        )
    }
}

/// Replay of a whole history.
pub open spec fn history_replay(h: Seq<MessageWithParts>) -> Seq<(Seq<char>, Seq<ContentModel>)> {
    collect_some(h, |m: MessageWithParts| message_replay(m))
}

/// Replay one stored part.
fn replay_part(part: &PartRow) -> (r: Option<ContentPart>)
    ensures
        match (r, part_content(part.data@)) {
            (None, None) => true,
            (Some(c), Some(m)) => c@ == m,
            _ => false,
        },
{
    let data = &part.data;
    let t = match data.get_str("type") {
        None => return None,
        Some(t) => t,
    };
    if str_eq(t.as_str(), "text") {
        match data.get_str("text") {
            Some(x) => Some(ContentPart::Text { text: x.clone() }),
            None => None,
        }
    } else if str_eq(t.as_str(), "tool_use") {
        let id = match data.get_str("id") {
            Some(i) => i.clone(),
            None => return None,
        };
        let name = match data.get_str("name") {
            Some(n) => n.clone(),
            None => return None,
        };
        let input = match data.get("input") {
            Some(v) => v.deep_clone(),
            None => {
                let es: Vec<(String, JsonValue)> = Vec::new();
                assert(entry_models(es@) =~= Seq::<(Seq<char>, JsonModel)>::empty());
                JsonValue::Object(es)
            },
        };
        let thought_signature = match data.get_str("thought_signature") {
            Some(s) => Some(s.clone()),
            None => None,
        };
        Some(ContentPart::ToolUse { id, name, input, thought_signature })
    } else if str_eq(t.as_str(), "tool_result") {
        let tool_use_id = match data.get_str("tool_use_id") {
            Some(u) => u.clone(),
            None => return None,
        };
        let content = match data.get_str("content") {
            Some(c) => c.clone(),
            None => String::new(),
        };
        Some(ContentPart::ToolResult { tool_use_id, content })
    } else {
        None
    }
}

/// A stored tool result replays with the output it was stored with: a
/// message whose one part is a `tool_result` for call `u` with string
/// content `c` replays as one message holding exactly
/// `ToolResult { tool_use_id: u, content: c }`.
pub proof fn law_tool_result_replays_stored_content(m: MessageWithParts, u: Seq<char>, c: Seq<char>)
    requires
        m.parts@.len() == 1,
        m.parts@[0].data@.field_str("type"@) == Some("tool_result"@),
        m.parts@[0].data@.field_str("tool_use_id"@) == Some(u),
        m.parts@[0].data@.field_str("content"@) == Some(c),
    ensures
        history_replay(seq![m]).len() == 1,
        history_replay(seq![m])[0].1 == seq![ContentModel::ToolResult { tool_use_id: u, content: c }],
{
    reveal_strlit("tool_result");
    reveal_strlit("text");
    reveal_strlit("tool_use");
    assert("tool_result"@ != "text"@) by { assert("tool_result"@.len() != "text"@.len()); }
    assert("tool_result"@ != "tool_use"@) by { assert("tool_result"@.len() != "tool_use"@.len()); }
    let p = m.parts@[0];
    assert(part_content(p.data@) == Some(ContentModel::ToolResult { tool_use_id: u, content: c }));
    assert(m.parts@ =~= Seq::<PartRow>::empty().push(p));
    lemma_collect_some_push(Seq::<PartRow>::empty(), p, part_fn());
    assert(collect_some(Seq::<PartRow>::empty(), part_fn()) =~= Seq::<ContentModel>::empty());
    let content = collect_some(m.parts@, part_fn());
    assert(content =~= seq![ContentModel::ToolResult { tool_use_id: u, content: c }]);
    let h = seq![m];
    assert(h =~= Seq::<MessageWithParts>::empty().push(m));
    lemma_collect_some_push(Seq::<MessageWithParts>::empty(), m, |x: MessageWithParts| message_replay(x));
    assert(collect_some(Seq::<MessageWithParts>::empty(), |x: MessageWithParts| message_replay(x)) =~= Seq::<(Seq<char>, Seq<ContentModel>)>::empty());
}

/// Rebuild provider messages from persisted history, storage first: each
/// message gives its role and replayable parts, and messages with no
/// replayable part are skipped.
pub fn history_to_model_messages(history: &Vec<MessageWithParts>) -> (r: Vec<ModelMessage>)
    ensures
        r@.map_values(|m: ModelMessage| message_view(m)) == history_replay(history@),
{
    let mut out: Vec<ModelMessage> = Vec::new();
    let mut i: usize = 0;
    assert(history@.take(0) =~= Seq::<MessageWithParts>::empty());
    assert(out@.map_values(|m: ModelMessage| message_view(m)) =~= Seq::<(Seq<char>, Seq<ContentModel>)>::empty());
    while i < history.len()
        invariant
            i <= history.len(),
            out@.map_values(|m: ModelMessage| message_view(m)) == history_replay(history@.take(i as int)),
        decreases history.len() - i,
    {
        let message = &history[i];
        let mut content: Vec<ContentPart> = Vec::new();
        let mut k: usize = 0;
        assert(message.parts@.take(0) =~= Seq::<PartRow>::empty());
        assert(content@.map_values(|c: ContentPart| c@) =~= Seq::<ContentModel>::empty());
        while k < message.parts.len()
            invariant
                k <= message.parts.len(),
                content@.map_values(|c: ContentPart| c@) == collect_some(message.parts@.take(k as int), part_fn()),
            decreases message.parts.len() - k,
        {
            proof {
                lemma_collect_some_push(message.parts@.take(k as int), message.parts@[k as int], part_fn());
                assert(message.parts@.take(k + 1) =~= message.parts@.take(k as int).push(message.parts@[k as int]));
            }
            match replay_part(&message.parts[k]) {
                Some(c) => {
                    let ghost before = content@;
                    content.push(c);
                    assert(content@.map_values(|c: ContentPart| c@) =~= before.map_values(|c: ContentPart| c@).push(c@));
                },
                None => {},
            }
            k = k + 1;
        }
        assert(message.parts@.take(message.parts.len() as int) =~= message.parts@);
        proof {
            lemma_collect_some_push(history@.take(i as int), history@[i as int], |m: MessageWithParts| message_replay(m));
            assert(history@.take(i + 1) =~= history@.take(i as int).push(history@[i as int]));
        }
        if content.len() > 0 {
            let role = match message.info.data.get_str("role") {
                Some(r) => r.clone(),
                None => String::from_str("user"),
            };
            let ghost before = out@;
            let m = ModelMessage { role, content };
            let ghost mv = message_view(m);
            out.push(m);
            assert(out@.map_values(|m: ModelMessage| message_view(m)) =~= before.map_values(|m: ModelMessage| message_view(m)).push(mv));
        }
        i = i + 1;
    }
    assert(history@.take(history.len() as int) =~= history@);
    out
}

/// The first pending permission of the session, else its first pending
/// question, as a blocked status.
pub open spec fn blocked_spec(perms: Seq<PermissionRequest>, questions: Seq<QuestionRequest>, sid: SessionId) -> Option<StatusModel> {
    if exists|i: int| 0 <= i < perms.len() && perms[i].session_id == sid {
        let i = choose|i: int| 0 <= i < perms.len() && perms[i].session_id == sid && forall|j: int| 0 <= j < i ==> perms[j].session_id != sid;
        Some(StatusModel::Blocked { kind: SessionBlockedKind::Permission, request_id: perms[i].id@ })
    } else if exists|i: int| 0 <= i < questions.len() && questions[i].session_id == sid {
        let i = choose|i: int| 0 <= i < questions.len() && questions[i].session_id == sid && forall|j: int| 0 <= j < i ==> questions[j].session_id != sid;
        Some(StatusModel::Blocked { kind: SessionBlockedKind::Question, request_id: questions[i].id@ })
    } else {
        None
    }
}

/// Blocked status of a session from the pending permissions and questions
/// (each list in its runtime's order).
pub fn blocked_status_for_session(
    permissions: &Vec<PermissionRequest>,
    questions: &Vec<QuestionRequest>,
    session_id: SessionId,
) -> (r: Option<SessionRuntimeStatus>)
    ensures
        match (r, blocked_spec(permissions@, questions@, session_id)) {
            (None, None) => true,
            (Some(s), Some(m)) => s@ == m,
            _ => false,
        },
{
    let mut i: usize = 0;
    while i < permissions.len()
        invariant
            i <= permissions.len(),
            forall|j: int| 0 <= j < i ==> permissions@[j].session_id != session_id,
        decreases permissions.len() - i,
    {
        if permissions[i].session_id == session_id {
            proof {
                let p = permissions@;
                assert(0 <= i < p.len() && p[i as int].session_id == session_id && forall|j: int| 0 <= j < i ==> p[j].session_id != session_id);
                let c = choose|c: int| 0 <= c < p.len() && p[c].session_id == session_id && forall|j: int| 0 <= j < c ==> p[j].session_id != session_id;
                assert(c == i) by {
                    if c < i {
                        assert(p[c].session_id != session_id);
                    }
                    if c > i {
                        assert(p[i as int].session_id != session_id);
                    }
                }
            }
            return Some(SessionRuntimeStatus::Blocked {
                kind: SessionBlockedKind::Permission,
                request_id: permissions[i].id.clone(),
            });
        }
        i = i + 1;
    }
    let mut k: usize = 0;
    while k < questions.len()
        invariant
            k <= questions.len(),
            forall|j: int| 0 <= j < permissions.len() ==> permissions@[j].session_id != session_id,
            forall|j: int| 0 <= j < k ==> questions@[j].session_id != session_id,
        decreases questions.len() - k,
    {
        if questions[k].session_id == session_id {
            proof {
                let q = questions@;
                assert(0 <= k < q.len() && q[k as int].session_id == session_id && forall|j: int| 0 <= j < k ==> q[j].session_id != session_id);
                let c = choose|c: int| 0 <= c < q.len() && q[c].session_id == session_id && forall|j: int| 0 <= j < c ==> q[j].session_id != session_id;
                assert(c == k) by {
                    if c < k {
                        assert(q[c].session_id != session_id);
                    }
                    if c > k {
                        assert(q[k as int].session_id != session_id);
                    }
                }
            }
            return Some(SessionRuntimeStatus::Blocked {
                kind: SessionBlockedKind::Question,
                request_id: questions[k].id.clone(),
            });
        }
        k = k + 1;
    }
    None
}

/// Status of a session: unknown sessions are not found; a pending request
/// blocks it; otherwise it is busy while a run is active, idle when not.
pub fn session_status(
    session_id: SessionId,
    exists: bool,
    snapshot: RunSnapshot,
    blocked: Option<SessionRuntimeStatus>,
) -> (r: Result<SessionRuntimeStatus, SessionError>)
    ensures
        !exists ==> (r matches Err(SessionError::NotFound(m)) && m@ == uuid_text(session_id.0)),
        exists ==> match blocked {
            Some(b) => r matches Ok(s) && s@ == b@,
            None => r matches Ok(s) && s@ == (if snapshot.is_active {
                StatusModel::Busy
            } else {
                StatusModel::Idle
            }),
        },
{
    if !exists {
        return Err(SessionError::NotFound(session_id.text()));
    }
    match blocked {
        Some(b) => Ok(b),
        None => {
            if snapshot.is_active {
                Ok(SessionRuntimeStatus::Busy)
            } else {
                Ok(SessionRuntimeStatus::Idle)
            }
        },
    }
}

/// Outcome of a cancel: fine when a run was cancelled or a pending request
/// was rejected, otherwise no active run.
pub fn cancel_outcome(session_id: SessionId, run_cancelled: bool, handled_pending: bool) -> (r: Result<(), SessionError>)
    ensures
        (run_cancelled || handled_pending) ==> r is Ok,
        !(run_cancelled || handled_pending) ==> (r matches Err(SessionError::NoActiveRun(m)) && m@ == uuid_text(session_id.0)),
{
    if run_cancelled || handled_pending {
        Ok(())
    } else {
        Err(SessionError::NoActiveRun(session_id.text()))
    }
}

/// Whether a background prompt failure is published as a session error:
/// cancellations and missing runs are not.
pub fn reports_background_failure(err: &SessionError) -> (r: bool)
    ensures
        r == !(err is Cancelled || err is NoActiveRun),
{
    match err {
        SessionError::Cancelled => false,
        SessionError::NoActiveRun(_) => false,
        _ => true,
    }
}

/// The model a prompt runs with and its provider/model split: the
/// request's model, else the default; it must name `provider/model`.
pub open spec fn resolve_spec(requested: Option<Seq<char>>, default: Option<Seq<char>>) -> Result<(Seq<char>, Seq<char>, Seq<char>), Seq<char>> {
    let chosen = match requested {
        Some(m) => Some(m),
        None => default,
    };
    match chosen {
        None => Err("no model resolved for prompt"@),
        Some(m) => match crate::text::split_once(m, '/') {
            None => Err("invalid model id: "@ + m),
            Some((p, rest)) => Ok((m, p, rest)),
        },
    }
}

/// Resolve the model of a prompt into `(model, provider, provider model)`.
pub fn resolve_model(requested: &Option<String>, default: &Option<String>) -> (r: Result<(String, String, String), SessionError>)
    ensures
        match (r, resolve_spec(match requested {
            Some(m) => Some(m@),
            None => None,
        }, match default {
            Some(m) => Some(m@),
            None => None,
        })) {
            (Ok((m, p, rest)), Ok((m2, p2, rest2))) => m@ == m2 && p@ == p2 && rest@ == rest2,
            (Err(e), Err(t)) => e matches SessionError::RuntimeInternal(x) && x@ == t,
            _ => false,
        },
{
    let chosen = match requested {
        Some(m) => m,
        None => match default {
            Some(d) => d,
            None => return Err(SessionError::RuntimeInternal(String::from_str("no model resolved for prompt"))),
        },
    };
    let cs = crate::text::chars_of(chosen.as_str());
    match crate::text::split_once_chars(&cs, '/') {
        None => Err(SessionError::RuntimeInternal(String::from_str("invalid model id: ").concat(chosen.as_str()))),
        Some((p, rest)) => Ok((chosen.clone(), crate::text::string_of(&p), crate::text::string_of(&rest))),
    }
}

/// Statuses reported for all sessions: busy for each active run, then a
/// pending permission, then a pending question, each overriding what came
/// before for its session.
pub open spec fn statuses_spec(
    active: Seq<SessionId>,
    perms: Seq<PermissionRequest>,
    questions: Seq<QuestionRequest>,
) -> Map<SessionId, StatusModel>
    decreases active.len() + perms.len() + questions.len(),
{
    if questions.len() > 0 {
        statuses_spec(active, perms, questions.drop_last()).insert(
            questions.last().session_id,
            StatusModel::Blocked { kind: SessionBlockedKind::Question, request_id: questions.last().id@ },
        )
    } else if perms.len() > 0 {
        statuses_spec(active, perms.drop_last(), questions).insert(
            perms.last().session_id,
            StatusModel::Blocked { kind: SessionBlockedKind::Permission, request_id: perms.last().id@ },
        )
    } else if active.len() > 0 {
        statuses_spec(active.drop_last(), perms, questions).insert(active.last(), StatusModel::Busy)
    } else {
        Map::empty()
    }
}

/// Without a question of `sid`, the questions leave `sid`'s status as the
/// active runs and permissions make it.
proof fn lemma_statuses_skip_questions(
    active: Seq<SessionId>,
    perms: Seq<PermissionRequest>,
    questions: Seq<QuestionRequest>,
    sid: SessionId,
)
    requires
        forall|j: int| 0 <= j < questions.len() ==> questions[j].session_id != sid,
    ensures
        statuses_spec(active, perms, questions).contains_key(sid) == statuses_spec(active, perms, Seq::empty()).contains_key(sid),
        statuses_spec(active, perms, questions).contains_key(sid) ==> statuses_spec(active, perms, questions)[sid]
            == statuses_spec(active, perms, Seq::empty())[sid],
    decreases questions.len(),
{
    if questions.len() > 0 {
        assert(questions.last() == questions[questions.len() - 1]);
        let q2 = questions.drop_last();
        assert forall|j: int| 0 <= j < q2.len() implies q2[j].session_id != sid by {
            assert(q2[j] == questions[j]);
        }
        lemma_statuses_skip_questions(active, perms, q2, sid);
    } else {
        assert(questions =~= Seq::<QuestionRequest>::empty());
    }
}

/// Without a permission of `sid`, the permissions leave `sid`'s status as
/// the active runs make it.
proof fn lemma_statuses_skip_perms(
    active: Seq<SessionId>,
    perms: Seq<PermissionRequest>,
    sid: SessionId,
)
    requires
        forall|j: int| 0 <= j < perms.len() ==> perms[j].session_id != sid,
    ensures
        statuses_spec(active, perms, Seq::empty()).contains_key(sid) == statuses_spec(active, Seq::empty(), Seq::empty()).contains_key(sid),
        statuses_spec(active, perms, Seq::empty()).contains_key(sid) ==> statuses_spec(active, perms, Seq::empty())[sid]
            == statuses_spec(active, Seq::empty(), Seq::empty())[sid],
    decreases perms.len(),
{
    if perms.len() > 0 {
        assert(perms.last() == perms[perms.len() - 1]);
        let p2 = perms.drop_last();
        assert forall|j: int| 0 <= j < p2.len() implies p2[j].session_id != sid by {
            assert(p2[j] == perms[j]);
        }
        lemma_statuses_skip_perms(active, p2, sid);
    } else {
        assert(perms =~= Seq::<PermissionRequest>::empty());
    }
}

/// A session with a pending question is listed as blocked on its latest
/// question, whether or not it also has a run or a pending permission.
pub proof fn law_question_blocks_status(
    active: Seq<SessionId>,
    perms: Seq<PermissionRequest>,
    questions: Seq<QuestionRequest>,
    k: int,
)
    requires
        0 <= k < questions.len(),
        forall|j: int| k < j < questions.len() ==> questions[j].session_id != questions[k].session_id,
    ensures
        statuses_spec(active, perms, questions).contains_key(questions[k].session_id),
        statuses_spec(active, perms, questions)[questions[k].session_id]
            == (StatusModel::Blocked { kind: SessionBlockedKind::Question, request_id: questions[k].id@ }),
    decreases questions.len(),
{
    if k < questions.len() - 1 {
        let q2 = questions.drop_last();
        assert(q2[k] == questions[k]);
        assert forall|j: int| k < j < q2.len() implies q2[j].session_id != q2[k].session_id by {
            assert(q2[j] == questions[j]);
        }
        law_question_blocks_status(active, perms, q2, k);
        assert(questions.last() == questions[questions.len() - 1]);
    }
}

/// A session with a pending permission and no pending question is listed
/// as blocked on its latest permission, whether or not it also has a run.
pub proof fn law_permission_blocks_status(
    active: Seq<SessionId>,
    perms: Seq<PermissionRequest>,
    questions: Seq<QuestionRequest>,
    k: int,
)
    requires
        0 <= k < perms.len(),
        forall|j: int| k < j < perms.len() ==> perms[j].session_id != perms[k].session_id,
        forall|j: int| 0 <= j < questions.len() ==> questions[j].session_id != perms[k].session_id,
    ensures
        statuses_spec(active, perms, questions).contains_key(perms[k].session_id),
        statuses_spec(active, perms, questions)[perms[k].session_id]
            == (StatusModel::Blocked { kind: SessionBlockedKind::Permission, request_id: perms[k].id@ }),
    decreases perms.len(),
{
    let sid = perms[k].session_id;
    lemma_statuses_skip_questions(active, perms, questions, sid);
    if k < perms.len() - 1 {
        let p2 = perms.drop_last();
        assert(p2[k] == perms[k]);
        assert forall|j: int| k < j < p2.len() implies p2[j].session_id != p2[k].session_id by {
            assert(p2[j] == perms[j]);
        }
        law_permission_blocks_status(active, p2, Seq::empty(), k);
        assert(perms.last() == perms[perms.len() - 1]);
    }
}

/// A session with an active run and no pending request is listed as busy.
pub proof fn law_active_run_is_busy(
    active: Seq<SessionId>,
    perms: Seq<PermissionRequest>,
    questions: Seq<QuestionRequest>,
    sid: SessionId,
)
    requires
        active.contains(sid),
        forall|j: int| 0 <= j < perms.len() ==> perms[j].session_id != sid,
        forall|j: int| 0 <= j < questions.len() ==> questions[j].session_id != sid,
    ensures
        statuses_spec(active, perms, questions).contains_key(sid),
        statuses_spec(active, perms, questions)[sid] == StatusModel::Busy,
    decreases active.len(),
{
    lemma_statuses_skip_questions(active, perms, questions, sid);
    lemma_statuses_skip_perms(active, perms, sid);
    if active.last() != sid {
        let a2 = active.drop_last();
        let i = choose|i: int| 0 <= i < active.len() && active[i] == sid;
        assert(i < active.len() - 1);
        assert(a2[i] == sid);
        law_active_run_is_busy(a2, Seq::empty(), Seq::empty(), sid);
    }
}

/// Statuses of all sessions with an active run or a pending request, each
/// session once.
pub fn list_statuses(
    active: &Vec<SessionId>,
    permissions: &Vec<PermissionRequest>,
    questions: &Vec<QuestionRequest>,
) -> (r: Vec<(SessionId, SessionRuntimeStatus)>)
    ensures
        pair_keys(r@).no_duplicates(),
        pair_map(r@).map_values(|s: SessionRuntimeStatus| s@) == statuses_spec(active@, permissions@, questions@),
{
    let mut out: Vec<(SessionId, SessionRuntimeStatus)> = Vec::new();
    assert(pair_keys(out@) =~= Seq::<SessionId>::empty());
    assert(pair_map(out@).map_values(|s: SessionRuntimeStatus| s@) =~= statuses_spec(Seq::empty(), Seq::empty(), Seq::empty()));
    let mut i: usize = 0;
    while i < active.len()
        invariant
            i <= active.len(),
            pair_keys(out@).no_duplicates(),
            pair_map(out@).map_values(|s: SessionRuntimeStatus| s@) == statuses_spec(active@.take(i as int), Seq::empty(), Seq::empty()),
        decreases active.len() - i,
    {
        upsert(&mut out, active[i], SessionRuntimeStatus::Busy);
        assert(active@.take(i + 1).drop_last() =~= active@.take(i as int));
        assert(pair_map(out@).map_values(|s: SessionRuntimeStatus| s@) =~= statuses_spec(active@.take(i + 1), Seq::empty(), Seq::empty()));
        i = i + 1;
    }
    assert(active@.take(active.len() as int) =~= active@);
    assert(permissions@.take(0) =~= Seq::<PermissionRequest>::empty());
    let mut k: usize = 0;
    while k < permissions.len()
        invariant
            k <= permissions.len(),
            pair_keys(out@).no_duplicates(),
            pair_map(out@).map_values(|s: SessionRuntimeStatus| s@) == statuses_spec(active@, permissions@.take(k as int), Seq::empty()),
        decreases permissions.len() - k,
    {
        let st = SessionRuntimeStatus::Blocked {
            kind: SessionBlockedKind::Permission,
            request_id: permissions[k].id.clone(),
        };
        upsert(&mut out, permissions[k].session_id, st);
        assert(permissions@.take(k + 1).drop_last() =~= permissions@.take(k as int));
        assert(pair_map(out@).map_values(|s: SessionRuntimeStatus| s@) =~= statuses_spec(active@, permissions@.take(k + 1), Seq::empty()));
        k = k + 1;
    }
    assert(permissions@.take(permissions.len() as int) =~= permissions@);
    assert(questions@.take(0) =~= Seq::<QuestionRequest>::empty());
    let mut q: usize = 0;
    while q < questions.len()
        invariant
            q <= questions.len(),
            pair_keys(out@).no_duplicates(),
            pair_map(out@).map_values(|s: SessionRuntimeStatus| s@) == statuses_spec(active@, permissions@, questions@.take(q as int)),
        decreases questions.len() - q,
    {
        let st = SessionRuntimeStatus::Blocked {
            kind: SessionBlockedKind::Question,
            request_id: questions[q].id.clone(),
        };
        upsert(&mut out, questions[q].session_id, st);
        assert(questions@.take(q + 1).drop_last() =~= questions@.take(q as int));
        assert(pair_map(out@).map_values(|s: SessionRuntimeStatus| s@) =~= statuses_spec(active@, permissions@, questions@.take(q + 1)));
        q = q + 1;
    }
    assert(questions@.take(questions.len() as int) =~= questions@);
    out
}

/// The permission asked before a tool call runs: id `permission-{call}`,
/// the tool's name as permission, its patterns both asked and offered for
/// `always`, metadata naming the tool loop, the tool and its input, and a
/// link to the call.
pub open spec fn tool_permission_spec(call_id: Seq<char>, sid: SessionId, name: Seq<char>, input: JsonModel, message_id: MessageId) -> PermissionRequestModel {
    PermissionRequestModel {
        id: "permission-"@ + call_id,
        session_id: sid,
        permission: name,
        patterns: tool_patterns(name, input),
        metadata: JsonModel::Object(
            seq![
                ("source"@, JsonModel::Str("tool_loop"@)),
                ("tool"@, JsonModel::Str(name)),
                ("input"@, input),
            ],
        ),
        always: tool_patterns(name, input),
        tool: Some((message_id, call_id)),
    }
}

/// The permission request for a tool call.
pub fn tool_permission_request(call_id: &str, session_id: SessionId, name: &str, input: &JsonValue, message_id: MessageId) -> (r: PermissionRequest)
    ensures
        r@ == tool_permission_spec(call_id@, session_id, name@, input@, message_id),
{
    let patterns = permission_patterns_for_tool_call(name, input);
    let always = permission_patterns_for_tool_call(name, input);
    let mut es: Vec<(String, JsonValue)> = Vec::new();
    assert(entry_models(es@) =~= Seq::<(Seq<char>, JsonModel)>::empty());
    object_push(&mut es, "source", JsonValue::text("tool_loop"));
    object_push(&mut es, "tool", JsonValue::text(name));
    object_push(&mut es, "input", input.deep_clone());
    let ghost em = entry_models(es@);
    assert(em =~= seq![
        ("source"@, JsonModel::Str("tool_loop"@)),
        ("tool"@, JsonModel::Str(name@)),
        ("input"@, input@),
    ]);
    let r = PermissionRequest {
        id: String::from_str("permission-").concat(call_id),
        session_id,
        permission: name.to_owned(),
        patterns,
        metadata: JsonValue::Object(es),
        always,
        tool: Some(RuntimeToolCallRef { message_id, call_id: call_id.to_owned() }),
    };
    assert(strings_view(r.patterns@) =~= tool_patterns(name@, input@));
    assert(strings_view(r.always@) =~= tool_patterns(name@, input@));
    r
}

/// The question request of a tool call: id `question-{call}` and a link
/// to the call.
pub fn tool_question_request(call_id: &str, session_id: SessionId, questions: Vec<QuestionInfo>, message_id: MessageId) -> (r: QuestionRequest)
    ensures
        r@ == (QuestionRequestModel {
            id: "question-"@ + call_id@,
            session_id,
            questions: infos_view(questions@),
            tool: Some((message_id, call_id@)),
        }),
{
    QuestionRequest {
        id: String::from_str("question-").concat(call_id),
        session_id,
        questions,
        tool: Some(RuntimeToolCallRef { message_id, call_id: call_id.to_owned() }),
    }
}

/// The error of a tool call requested from a provider outside the tool
/// loop's gate.
pub fn unsupported_tool_error(provider_id: &str) -> (r: SessionError)
    ensures
        r matches SessionError::Provider(m) && m@ == "provider '"@ + provider_id@
            + "' does not support runtime tool execution in this MVP"@,
{
    SessionError::Provider(
        String::from_str("provider '").concat(provider_id).concat(
            "' does not support runtime tool execution in this MVP",
        ),
    )
}

/// What a detached prompt answers at once: the session, no message yet,
/// and the requested model or else the default.
pub fn detached_acceptance(session_id: SessionId, requested: Option<String>, default: &Option<String>) -> (r: DetachedPromptAccepted)
    ensures
        r.session_id == session_id,
        r.assistant_message_id is None,
        match requested {
            Some(m) => r.resolved_model == Some(m),
            None => match default {
                Some(d) => r.resolved_model matches Some(x) && x@ == d@,
                None => r.resolved_model is None,
            },
        },
{
    let resolved_model = match requested {
        Some(m) => Some(m),
        None => match default {
            Some(d) => Some(d.clone()),
            None => None,
        },
    };
    DetachedPromptAccepted { session_id, assistant_message_id: None, resolved_model }
}

/// Whether a detached prompt is taken, from the session lookup: a failed
/// lookup is a runtime error, a missing session is not found and nothing
/// runs; otherwise the prompt is accepted at once.
pub fn detached_admission(
    session_id: SessionId,
    lookup: Result<Option<ProjectId>, StorageError>,
    requested: Option<String>,
    default: &Option<String>,
) -> (r: Result<DetachedPromptAccepted, SessionError>)
    ensures
        match lookup {
            Err(e) => r matches Err(SessionError::RuntimeInternal(m)) && m@ == storage_error_text(e),
            Ok(None) => r matches Err(SessionError::NotFound(m)) && m@ == uuid_text(session_id.0),
            Ok(Some(_)) => r matches Ok(a) && a.session_id == session_id && a.assistant_message_id is None
                && match requested {
                    Some(m) => a.resolved_model == Some(m),
                    None => match default {
                        Some(d) => a.resolved_model matches Some(x) && x@ == d@,
                        None => a.resolved_model is None,
                    },
                },
        },
{
    match lookup {
        Err(e) => Err(SessionError::RuntimeInternal(e.message())),
        Ok(None) => Err(SessionError::NotFound(session_id.text())),
        Ok(Some(_)) => Ok(detached_acceptance(session_id, requested, default)),
    }
}

/// Ids of the pending permissions of a session, in order.
pub open spec fn permission_ids_of(sid: SessionId) -> spec_fn(PermissionRequest) -> Option<Seq<char>> {
    |p: PermissionRequest| if p.session_id == sid { Some(p.id@) } else { None }
}

/// Ids of the pending questions of a session, in order.
pub open spec fn question_ids_of(sid: SessionId) -> spec_fn(QuestionRequest) -> Option<Seq<char>> {
    |q: QuestionRequest| if q.session_id == sid { Some(q.id@) } else { None }
}

/// The pending permissions a cancel rejects: those of the session.
pub fn session_permission_ids(permissions: &Vec<PermissionRequest>, session_id: SessionId) -> (r: Vec<String>)
    ensures
        strings_view(r@) == collect_some(permissions@, permission_ids_of(session_id)),
{
    let mut out: Vec<String> = Vec::new();
    let mut i: usize = 0;
    assert(permissions@.take(0) =~= Seq::<PermissionRequest>::empty());
    assert(strings_view(out@) =~= Seq::<Seq<char>>::empty());
    while i < permissions.len()
        invariant
            i <= permissions.len(),
            strings_view(out@) == collect_some(permissions@.take(i as int), permission_ids_of(session_id)),
        decreases permissions.len() - i,
    {
        proof {
            lemma_collect_some_push(permissions@.take(i as int), permissions@[i as int], permission_ids_of(session_id));
            assert(permissions@.take(i + 1) =~= permissions@.take(i as int).push(permissions@[i as int]));
        }
        if permissions[i].session_id == session_id {
            let ghost before = out@;
            let id = permissions[i].id.clone();
            out.push(id);
            assert(strings_view(out@) =~= strings_view(before).push(permissions@[i as int].id@));
        }
        i = i + 1;
    }
    assert(permissions@.take(permissions.len() as int) =~= permissions@);
    out
}

/// The pending questions a cancel rejects: those of the session.
pub fn session_question_ids(questions: &Vec<QuestionRequest>, session_id: SessionId) -> (r: Vec<String>)
    ensures
        strings_view(r@) == collect_some(questions@, question_ids_of(session_id)),
{
    let mut out: Vec<String> = Vec::new();
    let mut i: usize = 0;
    assert(questions@.take(0) =~= Seq::<QuestionRequest>::empty());
    assert(strings_view(out@) =~= Seq::<Seq<char>>::empty());
    while i < questions.len()
        invariant
            i <= questions.len(),
            strings_view(out@) == collect_some(questions@.take(i as int), question_ids_of(session_id)),
        decreases questions.len() - i,
    {
        proof {
            lemma_collect_some_push(questions@.take(i as int), questions@[i as int], question_ids_of(session_id));
            assert(questions@.take(i + 1) =~= questions@.take(i as int).push(questions@[i as int]));
        }
        if questions[i].session_id == session_id {
            let ghost before = out@;
            let id = questions[i].id.clone();
            out.push(id);
            assert(strings_view(out@) =~= strings_view(before).push(questions@[i as int].id@));
        }
        i = i + 1;
    }
    assert(questions@.take(questions.len() as int) =~= questions@);
    out
}

/// The prompt loop's next step after a streamed turn.
pub enum PromptStep {
    /// The reply is complete: the prompt returns its handle.
    Finish,
    /// A tool call to run: ask `permission`; once it is granted, fail with
    /// the error in `question` or ask the question it holds, then run the
    /// tool `name` on `input`.
    RunTool {
        call_id: String,
        name: String,
        permission: PermissionRequest,
        question: Result<Option<QuestionRequest>, SessionError>,
        input: JsonValue,
    },
}

/// The step that follows a turn of a prompt on `provider_id`: finish on a
/// completed turn; refuse a tool call where the tool loop is off; else the
/// permission of the call, the questions embedded in its input, and the
/// input without them.
pub fn next_prompt_step(
    session_id: SessionId,
    message_id: MessageId,
    provider_id: &str,
    outcome: PromptTurnOutcome,
) -> (r: Result<PromptStep, SessionError>)
    ensures
        match outcome {
            PromptTurnOutcome::Done => r matches Ok(PromptStep::Finish),
            PromptTurnOutcome::ToolCall { id, name, input } => {
                if !supports_runtime_tools(provider_id@) {
                    r matches Err(SessionError::Provider(m)) && m@ == "provider '"@ + provider_id@
                        + "' does not support runtime tool execution in this MVP"@
                } else {
                    r matches Ok(PromptStep::RunTool { call_id, name: n, permission, question, input: rest })
                    && call_id@ == id@ && n@ == name@
                    && permission@ == tool_permission_spec(id@, session_id, name@, input@, message_id)
                    && rest@ == take_questions_spec(input@).0
                    && match (question, take_questions_spec(input@).1) {
                        (Ok(None), Ok(None)) => true,
                        (Ok(Some(q)), Ok(Some(m))) => q@ == (QuestionRequestModel {
                            id: "question-"@ + id@,
                            session_id,
                            questions: m,
                            tool: Some((message_id, id@)),
                        }),
                        (Err(e), Err(m)) => e matches SessionError::RuntimeInternal(t) && t@ == m,
                        _ => false,
                    }
                }
            },
        },
{
    match outcome {
        PromptTurnOutcome::Done => Ok(PromptStep::Finish),
        PromptTurnOutcome::ToolCall { id, name, input } => {
            if !provider_supports_runtime_tools(provider_id) {
                return Err(unsupported_tool_error(provider_id));
            }
            let permission = tool_permission_request(id.as_str(), session_id, name.as_str(), &input, message_id);
            let mut rest = input;
            let question = match take_runtime_questions(&mut rest) {
                Err(e) => Err(e),
                Ok(None) => Ok(None),
                Ok(Some(qs)) => Ok(Some(tool_question_request(id.as_str(), session_id, qs, message_id))),
            };
            Ok(PromptStep::RunTool { call_id: id, name, permission, question, input: rest })
        },
    }
}

/// Where a prompt run stands.
#[derive(Clone, Copy, Debug, PartialEq, Eq, Structural)]
pub enum PromptPhase {
    /// Not begun.
    Start,
    /// Waiting for the session's row.
    SessionLookup,
    /// Waiting for the session's project row.
    ProjectLookup,
    /// Waiting for the run lease.
    Acquiring,
    /// Waiting for the provider lookup; the lease is held.
    ProviderLookup,
    /// Waiting for the user turn and assistant shell to be stored; the
    /// lease is held.
    Persisting,
    /// Running turns with `next_prompt_step`; the lease is held.
    Turns,
    /// Done, successfully or not.
    Finished,
}

/// What the caller reports to a prompt run.
pub enum PromptEvent {
    /// Start the run.
    Begin,
    /// The session lookup: the session's project, `None` for no session.
    SessionFound(Result<Option<ProjectId>, StorageError>),
    /// The project lookup: whether the project exists.
    ProjectFound(Result<bool, StorageError>),
    /// The run lease: `RunState::acquire`'s outcome.
    Acquired(Result<(), SessionError>),
    /// Whether the provider is registered.
    ProviderFound(bool),
    /// Storing the user turn and the assistant shell.
    Persisted(Result<(), StorageError>),
    /// The turn loop's outcome.
    TurnsEnded(Result<(), SessionError>),
}

/// What the caller does next.
pub enum PromptAction {
    /// Look the session up.
    LookupSession,
    /// Look this project up.
    LookupProject(ProjectId),
    /// Acquire the session's run lease.
    Acquire,
    /// Look this provider up.
    LookupProvider(String),
    /// Store the user turn and the assistant shell (`user_turn_rows`,
    /// `assistant_shell_row`) and publish them, for this provider and model.
    PersistTurn { provider: String, model: String },
    /// Run turns until `next_prompt_step` finishes or fails.
    RunTurns,
    /// Release the lease and answer with a handle naming this model.
    Finish { resolved_model: String },
    /// Answer with this error, releasing the lease when `release` is set.
    Fail { error: SessionError, release: bool },
}

/// The ordered steps of one prompt: the session is checked before any
/// lease is taken, and every failure after the lease releases it.
pub struct PromptRun {
    session_id: SessionId,
    requested: Option<String>,
    default: Option<String>,
    phase: PromptPhase,
    resolved: Option<(String, String, String)>,
}

/// Whether a phase holds the run lease.
pub open spec fn holds_lease(p: PromptPhase) -> bool {
    p == PromptPhase::ProviderLookup || p == PromptPhase::Persisting || p == PromptPhase::Turns
}

/// Whether an event is the one a phase waits for.
pub open spec fn awaits(p: PromptPhase, ev: PromptEvent) -> bool {
    match ev {
        PromptEvent::Begin => p == PromptPhase::Start,
        PromptEvent::SessionFound(_) => p == PromptPhase::SessionLookup,
        PromptEvent::ProjectFound(_) => p == PromptPhase::ProjectLookup,
        PromptEvent::Acquired(_) => p == PromptPhase::Acquiring,
        PromptEvent::ProviderFound(_) => p == PromptPhase::ProviderLookup,
        PromptEvent::Persisted(_) => p == PromptPhase::Persisting,
        PromptEvent::TurnsEnded(_) => p == PromptPhase::Turns,
    }
}

impl PromptRun {
    /// The session prompted.
    pub closed spec fn session_spec(&self) -> SessionId {
        self.session_id
    }

    /// The phase.
    pub closed spec fn phase_spec(&self) -> PromptPhase {
        self.phase
    }

    /// The model resolution, once the lease is held.
    pub closed spec fn resolved_spec(&self) -> Option<(Seq<char>, Seq<char>, Seq<char>)> {
        match self.resolved {
            Some((m, p, pm)) => Some((m@, p@, pm@)),
            None => None,
        }
    }

    /// The model resolution the run makes: `resolve_spec` of the requested
    /// and default models.
    pub closed spec fn resolution_spec(&self) -> Result<(Seq<char>, Seq<char>, Seq<char>), Seq<char>> {
        resolve_spec(ostr(self.requested), ostr(self.default))
    }

    #[verifier::type_invariant]
    spec fn inv(&self) -> bool {
        holds_lease(self.phase) ==> self.resolved is Some && self.resolution_spec() == Ok::<
            (Seq<char>, Seq<char>, Seq<char>),
            Seq<char>,
        >(self.resolved_spec()->Some_0)
    }

    /// A run of a prompt on `session_id` with the requested model, falling
    /// back on `default`.
    pub fn new(session_id: SessionId, requested: Option<String>, default: Option<String>) -> (r: Self)
        ensures
            r.session_spec() == session_id,
            r.phase_spec() == PromptPhase::Start,
            r.resolution_spec() == resolve_spec(ostr(requested), ostr(default)),
    {
        PromptRun { session_id, requested, default, phase: PromptPhase::Start, resolved: None }
    }

    /// The phase.
    pub fn phase(&self) -> (r: PromptPhase)
        ensures
            r == self.phase_spec(),
    {
        self.phase
    }

    /// Take one step on the event the current phase waits for.
    pub fn step(&mut self, ev: PromptEvent) -> (r: PromptAction)
        requires
            awaits(old(self).phase_spec(), ev),
        ensures
            final(self).session_spec() == old(self).session_spec(),
            final(self).resolution_spec() == old(self).resolution_spec(),
            r matches PromptAction::Fail { release, .. } ==> final(self).phase_spec() == PromptPhase::Finished
                && (release <==> (holds_lease(old(self).phase_spec()) || old(self).phase_spec() == PromptPhase::Acquiring && ev matches PromptEvent::Acquired(Ok(_)))),
            match ev {
                PromptEvent::Begin => r is LookupSession && final(self).phase_spec() == PromptPhase::SessionLookup,
                PromptEvent::SessionFound(Err(e)) => r matches PromptAction::Fail { error: SessionError::RuntimeInternal(m), .. }
                    && m@ == storage_error_text(e),
                PromptEvent::SessionFound(Ok(None)) => r matches PromptAction::Fail { error: SessionError::NotFound(m), .. }
                    && m@ == uuid_text(old(self).session_spec().0),
                PromptEvent::SessionFound(Ok(Some(p))) => r matches PromptAction::LookupProject(q) && q == p
                    && final(self).phase_spec() == PromptPhase::ProjectLookup,
                PromptEvent::ProjectFound(Err(e)) => r matches PromptAction::Fail { error: SessionError::RuntimeInternal(m), .. }
                    && m@ == storage_error_text(e),
                PromptEvent::ProjectFound(Ok(false)) => r matches PromptAction::Fail { error: SessionError::RuntimeInternal(m), .. }
                    && m@ == "project not found for session "@ + uuid_text(old(self).session_spec().0),
                PromptEvent::ProjectFound(Ok(true)) => r is Acquire && final(self).phase_spec() == PromptPhase::Acquiring,
                PromptEvent::Acquired(Err(e)) => r matches PromptAction::Fail { error, .. } && error == e,
                PromptEvent::Acquired(Ok(_)) => match old(self).resolution_spec() {
                    Err(t) => r matches PromptAction::Fail { error: SessionError::RuntimeInternal(m), .. } && m@ == t,
                    Ok((m, p, pm)) => r matches PromptAction::LookupProvider(x) && x@ == p
                        && final(self).phase_spec() == PromptPhase::ProviderLookup
                        && final(self).resolved_spec() == Some((m, p, pm)),
                },
                PromptEvent::ProviderFound(found) => {
                    let (m, p, pm) = old(self).resolved_spec()->Some_0;
                    if found {
                        r matches PromptAction::PersistTurn { provider, model } && provider@ == p && model@ == pm
                            && final(self).phase_spec() == PromptPhase::Persisting
                            && final(self).resolved_spec() == old(self).resolved_spec()
                    } else {
                        r matches PromptAction::Fail { error: SessionError::Provider(x), .. }
                            && x@ == "provider not registered: "@ + p
                    }
                },
                PromptEvent::Persisted(Err(e)) => r matches PromptAction::Fail { error: SessionError::RuntimeInternal(m), .. }
                    && m@ == storage_error_text(e),
                PromptEvent::Persisted(Ok(_)) => r is RunTurns && final(self).phase_spec() == PromptPhase::Turns
                    && final(self).resolved_spec() == old(self).resolved_spec(),
                PromptEvent::TurnsEnded(Err(e)) => r matches PromptAction::Fail { error, .. } && error == e,
                PromptEvent::TurnsEnded(Ok(_)) => r matches PromptAction::Finish { resolved_model }
                    && resolved_model@ == old(self).resolved_spec()->Some_0.0
                    && final(self).phase_spec() == PromptPhase::Finished,
            },
    {
        proof {
            use_type_invariant(&*self);
        }
        match ev {
            PromptEvent::Begin => {
                self.phase = PromptPhase::SessionLookup;
                PromptAction::LookupSession
            },
            PromptEvent::SessionFound(found) => match found {
                Err(e) => {
                    self.phase = PromptPhase::Finished;
                    PromptAction::Fail { error: SessionError::RuntimeInternal(e.message()), release: false }
                },
                Ok(None) => {
                    self.phase = PromptPhase::Finished;
                    PromptAction::Fail { error: SessionError::NotFound(self.session_id.text()), release: false }
                },
                Ok(Some(p)) => {
                    self.phase = PromptPhase::ProjectLookup;
                    PromptAction::LookupProject(p)
                },
            },
            PromptEvent::ProjectFound(found) => match found {
                Err(e) => {
                    self.phase = PromptPhase::Finished;
                    PromptAction::Fail { error: SessionError::RuntimeInternal(e.message()), release: false }
                },
                Ok(false) => {
                    self.phase = PromptPhase::Finished;
                    let id = self.session_id.text();
                    PromptAction::Fail {
                        error: SessionError::RuntimeInternal(String::from_str("project not found for session ").concat(id.as_str())),
                        release: false,
                    }
                },
                Ok(true) => {
                    self.phase = PromptPhase::Acquiring;
                    PromptAction::Acquire
                },
            },
            PromptEvent::Acquired(acquired) => match acquired {
                Err(e) => {
                    self.phase = PromptPhase::Finished;
                    PromptAction::Fail { error: e, release: false }
                },
                Ok(()) => match resolve_model(&self.requested, &self.default) {
                    Err(e) => {
                        self.phase = PromptPhase::Finished;
                        PromptAction::Fail { error: e, release: true }
                    },
                    Ok((m, p, pm)) => {
                        let provider = p.clone();
                        self.resolved = Some((m, p, pm));
                        self.phase = PromptPhase::ProviderLookup;
                        PromptAction::LookupProvider(provider)
                    },
                },
            },
            PromptEvent::ProviderFound(found) => {
                let (provider, model) = match &self.resolved {
                    Some((_, p, pm)) => (p.clone(), pm.clone()),
                    None => (String::new(), String::new()),
                };
                if found {
                    self.phase = PromptPhase::Persisting;
                    PromptAction::PersistTurn { provider, model }
                } else {
                    self.phase = PromptPhase::Finished;
                    PromptAction::Fail {
                        error: SessionError::Provider(String::from_str("provider not registered: ").concat(provider.as_str())),
                        release: true,
                    }
                }
            },
            PromptEvent::Persisted(stored) => match stored {
                Err(e) => {
                    self.phase = PromptPhase::Finished;
                    PromptAction::Fail { error: SessionError::RuntimeInternal(e.message()), release: true }
                },
                Ok(()) => {
                    self.phase = PromptPhase::Turns;
                    PromptAction::RunTurns
                },
            },
            PromptEvent::TurnsEnded(ended) => match ended {
                Err(e) => {
                    self.phase = PromptPhase::Finished;
                    PromptAction::Fail { error: e, release: true }
                },
                Ok(()) => {
                    let model = match &self.resolved {
                        Some((m, _, _)) => m.clone(),
                        None => String::new(),
                    };
                    self.phase = PromptPhase::Finished;
                    PromptAction::Finish { resolved_model: model }
                },
            },
        }
    }
}

} // verus!
