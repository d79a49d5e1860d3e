use opencode::dto::{MessageRow, MessageWithParts, PartRow};
use opencode::errors::{SessionError, StorageError};
use opencode::ids::Uid;
use opencode::json::{JsonNumber, JsonValue};
use opencode::session::engine::{
    blocked_status_for_session, cancel_outcome, history_to_model_messages, list_statuses,
    parse_runtime_question_info, permission_patterns_for_tool_call,
    provider_supports_runtime_tools, resolve_model, session_status, take_runtime_questions,
    tool_permission_request, next_prompt_step, detached_admission, PromptAction, PromptEvent, PromptPhase, PromptRun,
    PromptStep,
};
use opencode::session::model::ContentPart;
use opencode::session::permission_runtime::{
    always_rules_blob, permission_asked_event, permission_project, permission_replied_event,
    project_allow_rules, request_is_fully_allowed,
    storage_to_session_error, wildcard_matches, PermissionPending,
    ReplyPlan,
};
use opencode::session::question_runtime::{
    question_asked_event, question_rejected_event, question_rejection_error, question_replied_event,
    QuestionPending,
};
use opencode::bus::BusEvent;
use opencode::session::run_state::{RunSnapshot, RunState};
use opencode::session::runtime::{PromptStream, PromptTurnOutcome, RuntimeEventSink, StreamAction, StreamEvent};
use opencode::session::types::{
    DetachedPromptAccepted, PermissionReply, PermissionReplyKind, PermissionRequest,
    QuestionInfo, QuestionOption, QuestionReply, QuestionRequest, RuntimeToolCallRef,
    SessionBlockedKind, SessionHandle, SessionRuntimeStatus,
};
use opencode::storage::permission::PermissionRule;

fn to_json(v: &serde_json::Value) -> JsonValue {
    match v {
        serde_json::Value::Null => JsonValue::Null,
        serde_json::Value::Bool(b) => JsonValue::Bool(*b),
        serde_json::Value::Number(n) => {
            if let Some(u) = n.as_u64() {
                JsonValue::Number(JsonNumber::PosInt(u))
            } else if let Some(i) = n.as_i64() {
                JsonValue::Number(JsonNumber::NegInt(i))
            } else {
                JsonValue::Number(JsonNumber::Float(n.to_string()))
            }
        }
        serde_json::Value::String(s) => JsonValue::String(s.clone()),
        serde_json::Value::Array(a) => JsonValue::Array(a.iter().map(to_json).collect()),
        serde_json::Value::Object(o) => {
            JsonValue::Object(o.iter().map(|(k, v)| (k.clone(), to_json(v))).collect())
        }
    }
}

fn to_serde(v: &JsonValue) -> serde_json::Value {
    match v {
        JsonValue::Null => serde_json::Value::Null,
        JsonValue::Bool(b) => serde_json::Value::Bool(*b),
        JsonValue::Number(JsonNumber::PosInt(u)) => serde_json::Value::from(*u),
        JsonValue::Number(JsonNumber::NegInt(i)) => serde_json::Value::from(*i),
        JsonValue::Number(JsonNumber::Float(t)) => serde_json::from_str(t).unwrap(),
        JsonValue::String(s) => serde_json::Value::String(s.clone()),
        JsonValue::Array(a) => serde_json::Value::Array(a.iter().map(to_serde).collect()),
        JsonValue::Object(es) => serde_json::Value::Object(
            es.iter().map(|(k, v)| (k.clone(), to_serde(v))).collect(),
        ),
    }
}

fn same_json(a: &JsonValue, b: &JsonValue) -> bool {
    to_serde(a) == to_serde(b)
}

fn parse(text: &str) -> JsonValue {
    to_json(&serde_json::from_str::<serde_json::Value>(text).unwrap())
}

fn permission_request(session_id: Uid, id: &str, patterns: &[&str]) -> PermissionRequest {
    PermissionRequest {
        id: id.into(),
        session_id,
        permission: "bash".into(),
        patterns: patterns.iter().map(|p| (*p).to_string()).collect(),
        metadata: parse(r#"{"source": "test"}"#),
        always: patterns.iter().map(|p| (*p).to_string()).collect(),
        tool: None,
    }
}

fn question_request(session_id: Uid, id: &str) -> QuestionRequest {
    QuestionRequest {
        id: id.into(),
        session_id,
        questions: vec![QuestionInfo {
            question: "Choose deployment region".into(),
            header: "Region".into(),
            options: vec![QuestionOption { label: "us-east".into(), description: "US East".into() }],
            multiple: Some(false),
            custom: Some(false),
        }],
        tool: None,
    }
}

#[test]
fn session_handle_can_be_created_without_metadata() {
    let sid = Uid::new();
    let handle = SessionHandle::new(sid);
    assert_eq!(handle.session_id, sid);
    assert!(handle.assistant_message_id.is_none());
    assert!(handle.resolved_model.is_none());
}

#[test]
fn session_handle_supports_runtime_metadata() {
    let sid = Uid::new();
    let mid = Uid::new();
    let handle = SessionHandle::new(sid)
        .with_assistant_message_id(mid)
        .with_resolved_model("gpt-4o-mini".into());
    assert_eq!(handle.session_id, sid);
    assert_eq!(handle.assistant_message_id, Some(mid));
    assert_eq!(handle.resolved_model.as_deref(), Some("gpt-4o-mini"));
}

#[test]
fn runtime_status_serializes_to_idle_busy_shape() {
    assert_eq!(SessionRuntimeStatus::Idle.to_json(), JsonValue::String("idle".into()));
    assert_eq!(SessionRuntimeStatus::Busy.to_json(), JsonValue::String("busy".into()));
}

#[test]
fn detached_prompt_acceptance_preserves_handle_metadata() {
    let sid = Uid::new();
    let mid = Uid::new();
    let accepted = DetachedPromptAccepted::from(
        SessionHandle::new(sid)
            .with_assistant_message_id(mid)
            .with_resolved_model("anthropic/sonnet-latest".into()),
    );
    assert_eq!(accepted.session_id, sid);
    assert_eq!(accepted.assistant_message_id, Some(mid));
    assert_eq!(accepted.resolved_model.as_deref(), Some("anthropic/sonnet-latest"));
}

#[test]
fn runtime_status_supports_blocked_permission_shape() {
    let status = SessionRuntimeStatus::Blocked {
        kind: SessionBlockedKind::Permission,
        request_id: "perm_req_1".into(),
    };
    assert!(same_json(
        &status.to_json(),
        &parse(r#"{"type": "blocked", "kind": "permission", "requestID": "perm_req_1"}"#)
    ));
}

#[test]
fn runtime_status_reads_back_and_refuses_unknown_shapes() {
    let blocked = SessionRuntimeStatus::Blocked {
        kind: SessionBlockedKind::Question,
        request_id: "q1".into(),
    };
    match SessionRuntimeStatus::from_json(&blocked.to_json()).unwrap() {
        SessionRuntimeStatus::Blocked { kind, request_id } => {
            assert_eq!(kind, SessionBlockedKind::Question);
            assert_eq!(request_id, "q1");
        }
        _ => panic!("wrong status"),
    }
    assert!(matches!(SessionRuntimeStatus::from_json(&parse(r#""busy""#)).unwrap(), SessionRuntimeStatus::Busy));
    assert!(matches!(
        SessionRuntimeStatus::from_json(&parse(r#"{"kind": "permission", "requestID": "r"}"#)).unwrap(),
        SessionRuntimeStatus::Blocked { .. }
    ));
    assert_eq!(
        SessionRuntimeStatus::from_json(&parse(r#""paused""#)).unwrap_err(),
        "unknown session runtime status: paused"
    );
    assert_eq!(
        SessionRuntimeStatus::from_json(&parse(r#"{"type": "idle", "kind": "permission", "requestID": "r"}"#)).unwrap_err(),
        "blocked status type must be 'blocked'"
    );
    assert!(SessionRuntimeStatus::from_json(&parse("12")).is_err());
}

#[test]
fn wildcard_rules_match_like_globs() {
    assert!(wildcard_matches("*", "anything"));
    assert!(wildcard_matches("git:status", "git:status"));
    assert!(wildcard_matches("git:*", "git:status"));
    assert!(!wildcard_matches("git:*", "rm:rf"));
    assert!(!wildcard_matches("*:status", "git:status"));
    assert!(wildcard_matches("*:status", ":status"));
    assert!(wildcard_matches("git*", "git:status"));
    assert!(wildcard_matches("a*b*c", "aXbYc"));
    assert!(!wildcard_matches("a*b*c", "aXcYb"));
    assert!(!wildcard_matches("git", "git:status"));
}

#[test]
fn fully_allowed_needs_every_pattern_covered() {
    let sid = Uid::new();
    let rules = vec![PermissionRule { permission: "bash".into(), pattern: "git:*".into(), action: "allow".into() }];
    assert!(request_is_fully_allowed(&permission_request(sid, "r", &["git:status", "git:log"]), &rules));
    assert!(!request_is_fully_allowed(&permission_request(sid, "r", &["git:status", "rm:x"]), &rules));
}

#[test]
fn once_reply_resolves_only_that_request() {
    let sid = Uid::new();
    let mut pending: PermissionPending<u32> = PermissionPending::new();
    assert!(pending.register(permission_request(sid, "req-once", &["git:status"]), 1).is_none());
    assert_eq!(pending.list().len(), 1);
    let plan = pending.reply(&PermissionReply {
        session_id: sid,
        request_id: "req-once".into(),
        reply: PermissionReplyKind::Once,
    });
    match plan {
        ReplyPlan::Approve(v) => {
            assert_eq!(v.len(), 1);
            assert_eq!(v[0].waiter, 1);
        }
        _ => panic!("should approve"),
    }
    assert!(pending.list().is_empty());
}

#[test]
fn unknown_or_foreign_reply_is_noop() {
    let sid = Uid::new();
    let mut pending: PermissionPending<u32> = PermissionPending::new();
    pending.register(permission_request(sid, "a", &["x"]), 1);
    let plan = pending.reply(&PermissionReply { session_id: sid, request_id: "missing".into(), reply: PermissionReplyKind::Once });
    assert!(matches!(plan, ReplyPlan::Unmatched));
    let plan = pending.reply(&PermissionReply { session_id: Uid::new(), request_id: "a".into(), reply: PermissionReplyKind::Reject });
    assert!(matches!(plan, ReplyPlan::Unmatched));
    assert_eq!(pending.list().len(), 1);
}

#[test]
fn reject_reply_rejects_every_request_of_the_session() {
    let sid = Uid::new();
    let other = Uid::new();
    let mut pending: PermissionPending<u32> = PermissionPending::new();
    pending.register(permission_request(sid, "req-reject-a", &["rm:*"]), 1);
    pending.register(permission_request(other, "other", &["x"]), 2);
    pending.register(permission_request(sid, "req-reject-b", &["git:push"]), 3);
    let plan = pending.reply(&PermissionReply { session_id: sid, request_id: "req-reject-a".into(), reply: PermissionReplyKind::Reject });
    match plan {
        ReplyPlan::Reject(v) => {
            let waiters: Vec<u32> = v.iter().map(|e| e.waiter).collect();
            assert_eq!(waiters, vec![1, 3]);
        }
        _ => panic!("should reject"),
    }
    let left = pending.list();
    assert_eq!(left.len(), 1);
    assert_eq!(left[0].id, "other");
    match opencode::session::permission_runtime::rejection_error() {
        SessionError::RuntimeInternal(m) => assert!(m.contains("rejected")),
        _ => panic!(),
    }
}

#[test]
fn always_reply_approves_covered_requests_of_the_session() {
    let sid = Uid::new();
    let mut pending: PermissionPending<u32> = PermissionPending::new();
    pending.register(permission_request(sid, "req-always-a", &["git:status"]), 1);
    pending.register(permission_request(sid, "req-always-b", &["git:status"]), 2);
    pending.register(permission_request(sid, "req-c", &["rm:x"]), 3);
    let plan = pending.reply(&PermissionReply { session_id: sid, request_id: "req-always-a".into(), reply: PermissionReplyKind::Always });
    let taken = match plan {
        ReplyPlan::Persist(e) => e,
        _ => panic!("should persist"),
    };
    let patterns = opencode::session::permission_runtime::persist_patterns(&taken.request);
    assert_eq!(patterns, vec!["git:status".to_string()]);
    let rules = vec![PermissionRule { permission: "bash".into(), pattern: "git:status".into(), action: "allow".into() }];
    let approved = pending.finish_always(taken, &rules);
    let waiters: Vec<u32> = approved.iter().map(|e| e.waiter).collect();
    assert_eq!(waiters, vec![1, 2]);
    assert_eq!(pending.list().len(), 1);
}

#[test]
fn question_reply_and_reject() {
    let sid = Uid::new();
    let mut pending: QuestionPending<u32> = QuestionPending::new();
    pending.register(question_request(sid, "question_1"), 7);
    pending.register(question_request(sid, "question_2"), 8);
    let none = pending.take_for_reply(&QuestionReply { session_id: Uid::new(), request_id: "question_1".into(), answers: vec![] });
    assert!(none.is_none());
    let got = pending.take_for_reply(&QuestionReply {
        session_id: sid,
        request_id: "question_1".into(),
        answers: vec![vec!["eu-west".into()]],
    });
    assert_eq!(got.unwrap().waiter, 7);
    let rejected = pending.take_for_reject(&"question_2".to_string());
    assert_eq!(rejected.unwrap().waiter, 8);
    assert!(pending.take_for_reject(&"missing".to_string()).is_none());
    assert!(pending.list().is_empty());
    assert!(question_rejection_error().message().contains("question request rejected"));
}

#[test]
fn acquire_enforces_single_active_run_per_session() {
    let mut runs = RunState::new();
    let sid = Uid::new();
    let guard = runs.acquire(sid).unwrap();
    let err = runs.acquire(sid).unwrap_err();
    assert!(matches!(err, SessionError::Busy(_)));
    runs.release(guard);
    assert!(runs.acquire(sid).is_ok());
}

#[test]
fn cancel_is_idempotent_and_snapshot_tracks_state() {
    let mut runs = RunState::new();
    let sid = Uid::new();
    assert_eq!(runs.snapshot(sid), RunSnapshot { is_active: false, is_cancelled: false });
    let guard = runs.acquire(sid).unwrap();
    assert_eq!(runs.snapshot(sid), RunSnapshot { is_active: true, is_cancelled: false });
    assert!(runs.cancel(sid));
    assert!(!runs.cancel(sid));
    assert_eq!(runs.snapshot(sid), RunSnapshot { is_active: true, is_cancelled: true });
    runs.release(guard);
    assert_eq!(runs.snapshot(sid), RunSnapshot { is_active: false, is_cancelled: false });
    assert!(!runs.cancel(sid));
}

#[test]
fn list_active_sessions_tracks_leases() {
    let mut runs = RunState::new();
    let a = Uid::new();
    let b = Uid::new();
    let ga = runs.acquire(a).unwrap();
    let gb = runs.acquire(b).unwrap();
    let active = runs.list_active_sessions();
    assert_eq!(active.len(), 2);
    assert!(active.contains(&a) && active.contains(&b));
    runs.release(ga);
    assert_eq!(runs.list_active_sessions(), vec![b]);
    runs.release(gb);
    assert!(runs.list_active_sessions().is_empty());
}

#[test]
fn history_to_model_messages_preserves_tool_use_thought_signature() {
    let sid = Uid::new();
    let mid = Uid::new();
    let pid = Uid::new();
    let history = vec![MessageWithParts {
        info: MessageRow { id: mid, session_id: sid, time_created: 1, time_updated: 1, data: parse(r#"{ "role": "assistant" }"#) },
        parts: vec![PartRow {
            id: pid,
            message_id: mid,
            session_id: sid,
            time_created: 1,
            time_updated: 1,
            data: parse(r#"{"type": "tool_use", "id": "call_sig_1", "name": "bash", "input": { "command": "ls" }, "thought_signature": "sig-history"}"#),
        }],
    }];
    let messages = history_to_model_messages(&history);
    assert_eq!(messages.len(), 1);
    assert_eq!(messages[0].role, "assistant");
    match &messages[0].content[0] {
        ContentPart::ToolUse { id, name, input, thought_signature } => {
            assert_eq!(id, "call_sig_1");
            assert_eq!(name, "bash");
            assert_eq!(input.get("command"), Some(&JsonValue::String("ls".into())));
            assert_eq!(thought_signature.as_deref(), Some("sig-history"));
        }
        _ => panic!("expected tool use"),
    }
}

#[test]
fn history_skips_empty_messages_and_defaults_role() {
    let sid = Uid::new();
    let mid = Uid::new();
    let mk = |data: &str| PartRow { id: Uid::new(), message_id: mid, session_id: sid, time_created: 1, time_updated: 1, data: parse(data) };
    let history = vec![
        MessageWithParts {
            info: MessageRow { id: mid, session_id: sid, time_created: 1, time_updated: 1, data: parse("{}") },
            parts: vec![mk(r#"{"type": "text", "text": "hi"}"#), mk(r#"{"type": "tool_result", "tool_use_id": "c1"}"#), mk(r#"{"type": "image"}"#)],
        },
        MessageWithParts {
            info: MessageRow { id: mid, session_id: sid, time_created: 1, time_updated: 1, data: parse(r#"{"role": "tool"}"#) },
            parts: vec![mk(r#"{"text": "no type"}"#)],
        },
    ];
    let messages = history_to_model_messages(&history);
    assert_eq!(messages.len(), 1);
    assert_eq!(messages[0].role, "user");
    assert_eq!(messages[0].content.len(), 2);
    match &messages[0].content[1] {
        ContentPart::ToolResult { tool_use_id, content } => {
            assert_eq!(tool_use_id, "c1");
            assert_eq!(content, "");
        }
        _ => panic!(),
    }
}

#[test]
fn provider_gate_and_permission_patterns() {
    assert!(provider_supports_runtime_tools("anthropic"));
    assert!(provider_supports_runtime_tools("google"));
    assert!(!provider_supports_runtime_tools("openai"));
    assert_eq!(permission_patterns_for_tool_call("bash", &parse(r#"{"command": "ls -la"}"#)), vec!["bash:ls -la".to_string()]);
    assert_eq!(permission_patterns_for_tool_call("bash", &parse(r#"{"command": 3}"#)), vec!["bash:*".to_string()]);
    assert_eq!(permission_patterns_for_tool_call("read", &parse("{}")), vec!["read:*".to_string()]);
    let req = tool_permission_request("c1", Uid::new(), "bash", &parse(r#"{"command": "ls"}"#), Uid::new());
    assert_eq!(req.id, "permission-c1");
    assert_eq!(req.always, vec!["bash:ls".to_string()]);
}

#[test]
fn embedded_questions_are_taken_out_of_tool_input() {
    let mut input = parse(r#"{"a": 1, "_opencode_question": {"questions": [{"question": "Q?", "header": "H", "options": [{"label": "L", "description": "D"}], "multiple": true}]}}"#);
    let qs = take_runtime_questions(&mut input).unwrap().unwrap();
    assert_eq!(qs.len(), 1);
    assert_eq!(qs[0].question, "Q?");
    assert_eq!(qs[0].multiple, Some(true));
    assert_eq!(qs[0].custom, None);
    assert_eq!(input, parse(r#"{"a": 1}"#));
    let mut plain = parse(r#"{"a": 1}"#);
    assert!(take_runtime_questions(&mut plain).unwrap().is_none());
    let mut bad = parse(r#"{"_opencode_question": {}}"#);
    let err = take_runtime_questions(&mut bad).unwrap_err();
    assert_eq!(err.message(), "runtime error: _opencode_question payload must include a questions array");
    let err = parse_runtime_question_info(2, &parse(r#"{"question": "q", "header": "h", "options": [{"label": "x"}]}"#)).unwrap_err();
    match err {
        SessionError::RuntimeInternal(m) => assert_eq!(m, "question entry 2 option 0 missing string field 'description'"),
        _ => panic!(),
    }
}

#[test]
fn status_decisions() {
    let sid = Uid::new();
    let perms = vec![permission_request(Uid::new(), "p0", &["x"]), permission_request(sid, "p1", &["x"])];
    let qs = vec![question_request(sid, "q1")];
    match blocked_status_for_session(&perms, &qs, sid) {
        Some(SessionRuntimeStatus::Blocked { kind, request_id }) => {
            assert_eq!(kind, SessionBlockedKind::Permission);
            assert_eq!(request_id, "p1");
        }
        _ => panic!(),
    }
    assert!(blocked_status_for_session(&vec![], &vec![], sid).is_none());
    let idle = session_status(sid, true, RunSnapshot { is_active: false, is_cancelled: false }, None).unwrap();
    assert!(matches!(idle, SessionRuntimeStatus::Idle));
    let busy = session_status(sid, true, RunSnapshot { is_active: true, is_cancelled: false }, None).unwrap();
    assert!(matches!(busy, SessionRuntimeStatus::Busy));
    assert!(matches!(session_status(sid, false, RunSnapshot { is_active: true, is_cancelled: false }, None), Err(SessionError::NotFound(_))));
    let all = list_statuses(&vec![sid, Uid::new()], &perms, &vec![]);
    assert_eq!(all.len(), 3);
    assert!(cancel_outcome(sid, false, true).is_ok());
    assert!(matches!(cancel_outcome(sid, false, false), Err(SessionError::NoActiveRun(_))));
}

#[test]
fn model_resolution() {
    let (m, p, rest) = resolve_model(&Some("anthropic/sonnet".into()), &None).unwrap();
    assert_eq!((m.as_str(), p.as_str(), rest.as_str()), ("anthropic/sonnet", "anthropic", "sonnet"));
    let (m, _, _) = resolve_model(&None, &Some("google/gemini".into())).unwrap();
    assert_eq!(m, "google/gemini");
    assert_eq!(resolve_model(&None, &None).unwrap_err().message(), "runtime error: no model resolved for prompt");
    assert_eq!(resolve_model(&Some("bare".into()), &None).unwrap_err().message(), "runtime error: invalid model id: bare");
}

#[test]
fn stream_events_drive_parts_and_tool_calls() {
    let mut s = PromptStream::new();
    match s.on_event(StreamEvent::TextDelta { delta: "he".into() }, 1000) {
        StreamAction::AppendPart { time, data } => {
            assert_eq!(time, 1001);
            assert!(same_json(&data, &parse(r#"{"type": "text", "text": "he", "seq": 1}"#)));
        }
        _ => panic!(),
    }
    assert!(matches!(
        s.on_event(StreamEvent::ToolUseStart { id: "t1".into(), name: "bash".into(), thought_signature: None }, 1000),
        StreamAction::Continue
    ));
    match s.on_event(StreamEvent::ToolUseInputDelta { id: "t2".into(), delta: "x".into() }, 1000) {
        StreamAction::Fail(SessionError::RuntimeInternal(m)) => {
            assert_eq!(m, "tool input delta id mismatch: expected Some(\"t1\"), got t2")
        }
        _ => panic!(),
    }
    assert!(matches!(s.on_event(StreamEvent::ToolUseInputDelta { id: "t1".into(), delta: "{\"command\":\"ls\"}".into() }, 1000), StreamAction::Continue));
    match s.on_event(StreamEvent::ToolUseEnd { id: "t1".into() }, 2000) {
        StreamAction::ToolCall { time, data, id, name, input } => {
            assert_eq!(time, 2002);
            assert_eq!(id, "t1");
            assert_eq!(name, "bash");
            assert_eq!(input, parse(r#"{"command": "ls"}"#));
            assert_eq!(data.get("seq"), Some(&JsonValue::Number(JsonNumber::PosInt(2))));
            assert_eq!(data.get("thought_signature"), Some(&JsonValue::Null));
        }
        _ => panic!(),
    }
}

#[test]
fn stream_errors_and_endings() {
    let mut s = PromptStream::new();
    match s.on_event(StreamEvent::ToolUseEnd { id: "x".into() }, 0) {
        StreamAction::Fail(SessionError::RuntimeInternal(m)) => assert_eq!(m, "tool end id mismatch: expected None, got x"),
        _ => panic!(),
    }
    assert!(matches!(s.on_event(StreamEvent::Closed, 0), StreamAction::Finish));
    assert!(matches!(s.on_event(StreamEvent::Cancelled, 0), StreamAction::Cancel));
    assert!(matches!(s.on_event(StreamEvent::ProviderError { message: "x".into() }, 0), StreamAction::Fail(SessionError::Provider(_))));
    s.on_event(StreamEvent::ToolUseStart { id: "a".into(), name: "n".into(), thought_signature: Some("sig".into()) }, 0);
    match s.finish_tool_use(Err("expected value".into()), 0) {
        StreamAction::Fail(SessionError::RuntimeInternal(m)) => assert_eq!(m, "invalid tool input json for n: expected value"),
        _ => panic!(),
    }
    match s.on_event(StreamEvent::ToolUseEnd { id: "a".into() }, 5) {
        StreamAction::ToolCall { time, input, .. } => {
            assert_eq!(time, 6);
            assert_eq!(input, JsonValue::Object(vec![]));
        }
        _ => panic!(),
    }
    let _ = RuntimeToolCallRef { message_id: Uid::new(), call_id: "c".into() };
}

#[test]
fn prompt_step_after_each_kind_of_turn() {
    let sid = Uid::new();
    let mid = Uid::new();
    assert!(matches!(next_prompt_step(sid, mid, "anthropic", PromptTurnOutcome::Done), Ok(PromptStep::Finish)));

    let call = |input: &str| PromptTurnOutcome::ToolCall {
        id: "c7".to_string(),
        name: "bash".to_string(),
        input: parse(input),
    };
    match next_prompt_step(sid, mid, "openai", call(r#"{"command": "ls"}"#)) {
        Err(SessionError::Provider(m)) => {
            assert_eq!(m, "provider 'openai' does not support runtime tool execution in this MVP")
        }
        _ => panic!("tool call on a provider without the tool loop must fail"),
    }

    let with_question = r#"{"command": "ls", "_opencode_question": {"questions": [{"question": "Q?", "header": "H", "options": []}]}}"#;
    match next_prompt_step(sid, mid, "google", call(with_question)) {
        Ok(PromptStep::RunTool { call_id, name, permission, question, input }) => {
            assert_eq!(call_id, "c7");
            assert_eq!(name, "bash");
            assert_eq!(permission.id, "permission-c7");
            assert_eq!(permission.patterns, vec!["bash:ls".to_string()]);
            assert_eq!(permission.session_id, sid);
            let q = question.unwrap().unwrap();
            assert_eq!(q.id, "question-c7");
            assert_eq!(q.questions.len(), 1);
            assert_eq!(q.tool, Some(RuntimeToolCallRef { message_id: mid, call_id: "c7".to_string() }));
            assert_eq!(input, parse(r#"{"command": "ls"}"#));
        }
        _ => panic!("tool call on anthropic/google must run"),
    }

    match next_prompt_step(sid, mid, "anthropic", call(r#"{"_opencode_question": {}}"#)) {
        Ok(PromptStep::RunTool { question: Err(SessionError::RuntimeInternal(m)), .. }) => {
            assert_eq!(m, "_opencode_question payload must include a questions array")
        }
        _ => panic!("a malformed question payload fails after the permission"),
    }
}

#[test]
fn exposes_runtime_support_modules() {
    let _ = RunState::default();
    let _ = RuntimeEventSink;
}

#[test]
fn permission_storage_failures_become_runtime_errors() {
    match storage_to_session_error(&StorageError::Db("disk full".to_string())) {
        SessionError::RuntimeInternal(m) => assert_eq!(m, "permission storage failure: database error: disk full"),
        _ => panic!("storage failures are runtime errors"),
    }
}

#[test]
fn permission_and_question_events_carry_the_request() {
    let sid = Uid::new();
    let req = permission_request(sid, "req-once", &["git:status"]);
    match permission_asked_event(&req) {
        BusEvent::PermissionAsked { session_id, request_id, patterns, .. } => {
            assert_eq!(session_id, sid);
            assert_eq!(request_id, "req-once");
            assert_eq!(patterns, vec!["git:status".to_string()]);
        }
        _ => panic!("asked event"),
    }
    let reply = PermissionReply { session_id: sid, request_id: "req-once".into(), reply: PermissionReplyKind::Once };
    match permission_replied_event(&reply) {
        BusEvent::PermissionReplied { session_id, request_id, reply } => {
            assert_eq!(session_id, sid);
            assert_eq!(request_id, "req-once");
            assert_eq!(reply, PermissionReplyKind::Once);
        }
        _ => panic!("replied event"),
    }
    let q = question_request(sid, "question_1");
    assert!(matches!(question_asked_event(&q), BusEvent::QuestionAsked { request_id, .. } if request_id == "question_1"));
    let answer = QuestionReply { session_id: sid, request_id: "question_1".into(), answers: vec![vec!["a".into()]] };
    match question_replied_event(&answer) {
        BusEvent::QuestionReplied { answers, .. } => assert_eq!(answers, vec![vec!["a".to_string()]]),
        _ => panic!("replied event"),
    }
    assert!(matches!(question_rejected_event(sid, &"question_1".to_string()), BusEvent::QuestionRejected { session_id, .. } if session_id == sid));
}

#[test]
fn prompt_run_checks_the_session_before_taking_a_lease() {
    let sid = Uid::new();
    let mut run = PromptRun::new(sid, None, Some("anthropic/sonnet-latest".into()));
    assert!(matches!(run.step(PromptEvent::Begin), PromptAction::LookupSession));
    match run.step(PromptEvent::SessionFound(Ok(None))) {
        PromptAction::Fail { error: SessionError::NotFound(m), release } => {
            assert_eq!(m, sid.text());
            assert!(!release);
        }
        _ => panic!("unknown session"),
    }
    assert_eq!(run.phase(), PromptPhase::Finished);

    let pid = Uid::new();
    let mut run = PromptRun::new(sid, None, Some("anthropic/sonnet-latest".into()));
    run.step(PromptEvent::Begin);
    assert!(matches!(run.step(PromptEvent::SessionFound(Ok(Some(pid)))), PromptAction::LookupProject(p) if p == pid));
    assert!(matches!(run.step(PromptEvent::ProjectFound(Ok(true))), PromptAction::Acquire));
    assert!(matches!(run.step(PromptEvent::Acquired(Ok(()))), PromptAction::LookupProvider(p) if p == "anthropic"));
    match run.step(PromptEvent::ProviderFound(true)) {
        PromptAction::PersistTurn { provider, model } => {
            assert_eq!(provider, "anthropic");
            assert_eq!(model, "sonnet-latest");
        }
        _ => panic!("persist"),
    }
    assert!(matches!(run.step(PromptEvent::Persisted(Ok(()))), PromptAction::RunTurns));
    assert!(matches!(run.step(PromptEvent::TurnsEnded(Ok(()))), PromptAction::Finish { resolved_model } if resolved_model == "anthropic/sonnet-latest"));

    let mut busy = PromptRun::new(sid, None, None);
    busy.step(PromptEvent::Begin);
    busy.step(PromptEvent::SessionFound(Ok(Some(pid))));
    busy.step(PromptEvent::ProjectFound(Ok(true)));
    assert!(matches!(busy.step(PromptEvent::Acquired(Err(SessionError::Busy("x".into())))), PromptAction::Fail { release: false, .. }));

    let mut no_model = PromptRun::new(sid, None, None);
    no_model.step(PromptEvent::Begin);
    no_model.step(PromptEvent::SessionFound(Ok(Some(pid))));
    no_model.step(PromptEvent::ProjectFound(Ok(true)));
    match no_model.step(PromptEvent::Acquired(Ok(()))) {
        PromptAction::Fail { error: SessionError::RuntimeInternal(m), release } => {
            assert_eq!(m, "no model resolved for prompt");
            assert!(release);
        }
        _ => panic!("no model"),
    }

    let mut unknown = PromptRun::new(sid, Some("nope/m".into()), None);
    unknown.step(PromptEvent::Begin);
    unknown.step(PromptEvent::SessionFound(Ok(Some(pid))));
    unknown.step(PromptEvent::ProjectFound(Ok(true)));
    unknown.step(PromptEvent::Acquired(Ok(())));
    match unknown.step(PromptEvent::ProviderFound(false)) {
        PromptAction::Fail { error: SessionError::Provider(m), release } => {
            assert_eq!(m, "provider not registered: nope");
            assert!(release);
        }
        _ => panic!("unknown provider"),
    }
}

#[test]
fn malformed_tool_input_returns_runtime_error() {
    let mut s = PromptStream::new();
    s.on_event(StreamEvent::ToolUseStart { id: "call_1".into(), name: "bash".into(), thought_signature: None }, 0);
    s.on_event(StreamEvent::ToolUseInputDelta { id: "call_1".into(), delta: "{bad-json".into() }, 0);
    match s.on_event(StreamEvent::ToolUseEnd { id: "call_1".into() }, 0) {
        StreamAction::Fail(SessionError::RuntimeInternal(m)) => {
            assert!(m.starts_with("invalid tool input json for bash: "), "{m}");
            assert!(m.len() > "invalid tool input json for bash: ".len());
        }
        _ => panic!("malformed tool input must fail the turn"),
    }
}

#[test]
fn unknown_sessions_are_refused_before_anything_waits_or_runs() {
    let sid = Uid::new();
    match detached_admission(sid, Ok(None), None, &Some("anthropic/sonnet-latest".into())) {
        Err(SessionError::NotFound(m)) => assert_eq!(m, sid.text()),
        _ => panic!("unknown session"),
    }
    let pid = Uid::new();
    let a = detached_admission(sid, Ok(Some(pid)), None, &Some("anthropic/sonnet-latest".into())).unwrap();
    assert_eq!(a.session_id, sid);
    assert_eq!(a.assistant_message_id, None);
    assert_eq!(a.resolved_model.as_deref(), Some("anthropic/sonnet-latest"));
    match permission_project(sid, Ok(None)) {
        Err(SessionError::NotFound(m)) => assert_eq!(m, sid.text()),
        _ => panic!("unknown session"),
    }
    assert_eq!(permission_project(sid, Ok(Some(pid))).unwrap(), pid);
    match permission_project(sid, Err(StorageError::Db("down".into()))) {
        Err(SessionError::RuntimeInternal(m)) => assert_eq!(m, "permission storage failure: database error: down"),
        _ => panic!("storage failure"),
    }
    assert!(project_allow_rules(Ok(None)).unwrap().is_empty());
    let rules = project_allow_rules(Ok(Some(parse(
        r#"[{"permission": "bash", "pattern": "git:status", "action": "allow"}, {"permission": "bash", "pattern": "rm:*", "action": "deny"}]"#,
    ))))
    .unwrap();
    assert_eq!(rules.len(), 1);
    assert_eq!(rules[0].pattern, "git:status");
    let blob = always_rules_blob(None, &permission_request(sid, "req-always-a", &["git:status"]));
    assert!(same_json(&blob, &parse(r#"[{"permission": "bash", "pattern": "git:status", "action": "allow"}]"#)));
}
