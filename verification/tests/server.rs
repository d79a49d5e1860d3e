use opencode::bus::BusEvent;
use opencode::dto::{MessageRow, MessageWithParts, PartRow, SessionRow};
use opencode::errors::{SessionError, StorageError};
use opencode::ids::Uid;
use opencode::json::{JsonNumber, JsonValue};
use opencode::server::event::{translate_bus_event, ServerEventPayload};
use opencode::server::http_error::HttpError;
use opencode::server::project::{git_foundation_record, repository_root_of, unknown_foundation_record};
use opencode::server::provider::{map_provider_error, stream_admission, stream_max_tokens, ProviderFailure, StreamBody};
use opencode::server::session_routes::{bind_message_parts, SessionPatchDto};
use opencode::server::workspace::{
    parse_workspace_target, prepare_create, prepare_patch, PatchField, WorkspaceCreateDto,
    WorkspacePatchDto, WorkspaceRow, WorkspaceTargetMetadata, WorkspaceValidationError,
};

fn to_json(v: &serde_json::Value) -> JsonValue {
    match v {
        serde_json::Value::Null => JsonValue::Null,
        serde_json::Value::Bool(b) => JsonValue::Bool(*b),
        serde_json::Value::Number(n) => {
            if let Some(u) = n.as_u64() {
                JsonValue::Number(JsonNumber::PosInt(u))
            } else if let Some(i) = n.as_i64() {
                JsonValue::Number(JsonNumber::NegInt(i))
            } else {
                JsonValue::Number(JsonNumber::Float(n.to_string()))
            }
        }
        serde_json::Value::String(s) => JsonValue::String(s.clone()),
        serde_json::Value::Array(a) => JsonValue::Array(a.iter().map(to_json).collect()),
        serde_json::Value::Object(o) => {
            JsonValue::Object(o.iter().map(|(k, v)| (k.clone(), to_json(v))).collect())
        }
    }
}

fn parse(text: &str) -> JsonValue {
    to_json(&serde_json::from_str::<serde_json::Value>(text).unwrap())
}

fn field<'a>(v: &'a JsonValue, key: &str) -> &'a JsonValue {
    v.get(key).expect("field present")
}

#[test]
fn not_found_status() {
    let e = HttpError::not_found("missing resource".into());
    assert_eq!(e.status(), 404);
    assert!(e.message().contains("missing resource"));
}

#[test]
fn bad_request_status() {
    let e = HttpError::bad_request("invalid input".into());
    assert_eq!(e.status(), 400);
    assert!(e.message().contains("invalid input"));
}

#[test]
fn internal_status() {
    let e = HttpError::internal("db error".into());
    assert_eq!(e.status(), 500);
    assert!(e.message().contains("db error"));
}

#[test]
fn debug_impl() {
    let e = HttpError::not_found("x".into());
    assert!(format!("{e:?}").contains("HttpError"));
}

#[test]
fn storage_not_found_maps_to_404() {
    let storage_err = StorageError::NotFound { entity: "project".into(), id: "abc-123".into() };
    let http_err = HttpError::from_storage_error(storage_err);
    assert_eq!(http_err.status(), 404);
    assert!(http_err.message().contains("project"));
}

#[test]
fn storage_db_error_maps_to_500() {
    let http_err = HttpError::from_storage_error(StorageError::Db("connection refused".into()));
    assert_eq!(http_err.status(), 500);
    assert!(http_err.message().contains("connection refused"));
}

#[test]
fn storage_serde_error_maps_to_500() {
    let http_err = HttpError::from_storage_error(StorageError::Serde("invalid json field".into()));
    assert_eq!(http_err.status(), 500);
    assert!(http_err.message().contains("invalid json field"));
}

#[test]
fn storage_not_found_msg_includes_id() {
    let storage_err = StorageError::NotFound { entity: "session".into(), id: "sess-xyz-999".into() };
    let http_err = HttpError::from_storage_error(storage_err);
    assert_eq!(http_err.status(), 404);
    assert!(http_err.message().contains("sess-xyz-999"));
    assert_eq!(http_err.message(), "not found: session sess-xyz-999");
}

#[test]
fn session_errors_map_to_statuses() {
    assert_eq!(HttpError::from_session_error(SessionError::Busy("s".into())).status(), 409);
    assert_eq!(HttpError::from_session_error(SessionError::NoActiveRun("s".into())).status(), 409);
    assert_eq!(HttpError::from_session_error(SessionError::NotFound("s".into())).status(), 404);
    assert_eq!(HttpError::from_session_error(SessionError::Provider("p".into())).status(), 502);
    let e = HttpError::from_session_error(SessionError::RuntimeInternal("boom".into()));
    assert_eq!(e.status(), 500);
    assert_eq!(e.message(), "runtime error: boom");
    assert_eq!(e.body(), parse(r#"{"error": "runtime error: boom"}"#));
}

#[test]
fn remote_workspace_rejects_missing_extra_payload() {
    let err = parse_workspace_target("remote", None).expect_err("missing payload must fail");
    assert!(err.message().contains("extra metadata is required"));
}

#[test]
fn remote_workspace_accepts_valid_target_payload() {
    let extra = parse(r#"{"instance": "control-plane-a", "base_url": "https://cp-a.example"}"#);
    let parsed = parse_workspace_target("remote", Some(&extra)).expect("valid payload should parse");
    match parsed {
        WorkspaceTargetMetadata::Remote(remote) => {
            assert_eq!(remote.instance, "control-plane-a");
            assert_eq!(remote.base_url, "https://cp-a.example");
        }
        WorkspaceTargetMetadata::Other => panic!("remote payload should parse as remote target"),
    }
}

#[test]
fn remote_workspace_rejects_missing_instance_field() {
    let extra = parse(r#"{"base_url": "https://cp-a.example"}"#);
    let err = parse_workspace_target("remote", Some(&extra)).expect_err("missing instance must fail");
    assert_eq!(err, WorkspaceValidationError::MissingField { field: "instance" });
}

#[test]
fn remote_workspace_rejects_non_http_base_url() {
    let extra = parse(r#"{"instance": "control-plane-a", "base_url": "ftp://cp-a.example"}"#);
    let err = parse_workspace_target("remote", Some(&extra)).expect_err("unsupported scheme must fail");
    assert_eq!(err, WorkspaceValidationError::InvalidBaseUrl);
}

#[test]
fn non_remote_workspace_skips_remote_target_validation() {
    let parsed = parse_workspace_target("worktree", None).expect("non-remote should pass");
    assert_eq!(parsed, WorkspaceTargetMetadata::Other);
}

#[test]
fn remote_workspace_other_failures() {
    let arr = parse("[1]");
    assert_eq!(parse_workspace_target("remote", Some(&arr)).unwrap_err(), WorkspaceValidationError::ExtraNotObject);
    let blank = parse(r#"{"instance": "  ", "base_url": "https://x"}"#);
    let err = parse_workspace_target("remote", Some(&blank)).unwrap_err();
    assert_eq!(err, WorkspaceValidationError::InvalidField { field: "instance" });
    assert_eq!(err.message(), "remote workspace metadata field 'instance' must be a non-empty string");
    let rel = parse(r#"{"instance": "a", "base_url": "/relative"}"#);
    assert_eq!(parse_workspace_target("remote", Some(&rel)).unwrap_err(), WorkspaceValidationError::InvalidBaseUrl);
    let num = parse(r#"{"instance": "a", "base_url": 3}"#);
    assert_eq!(parse_workspace_target("remote", Some(&num)).unwrap_err(), WorkspaceValidationError::InvalidField { field: "base_url" });
}

#[test]
fn workspace_create_and_patch() {
    let dto = WorkspaceCreateDto {
        id: None,
        kind: "remote".into(),
        branch: None,
        name: None,
        directory: None,
        extra: Some(parse(r#"{"instance": "a"}"#)),
        project_id: Uid::new(),
    };
    let err = prepare_create(dto).unwrap_err();
    assert_eq!(err.status(), 400);
    assert_eq!(err.message(), "remote workspace metadata field 'base_url' is required");
    let wid = Uid::new();
    let row = WorkspaceRow {
        id: wid,
        kind: "worktree".into(),
        branch: Some("main".into()),
        name: Some("n".into()),
        directory: None,
        extra: None,
        project_id: Uid::new(),
    };
    let patch = WorkspacePatchDto {
        kind: None,
        branch: PatchField::Null,
        name: PatchField::Missing,
        directory: PatchField::Value("/tmp".into()),
        extra: PatchField::Missing,
    };
    let out = prepare_patch(row, patch).unwrap();
    assert_eq!(out.id, wid);
    assert_eq!(out.branch, None);
    assert_eq!(out.name.as_deref(), Some("n"));
    assert_eq!(out.directory.as_deref(), Some("/tmp"));
}

#[test]
fn translate_bus_event_maps_supported_variants() {
    let sid = Uid::new();
    let mid = Uid::new();
    let payload = translate_bus_event(&BusEvent::MessageAdded { session_id: sid, message_id: mid })
        .expect("message.added should be translated");
    assert_eq!(payload.event_type, "message.added");
    assert_eq!(field(&payload.properties, "session_id"), &JsonValue::String(sid.text()));
    assert_eq!(field(&payload.properties, "message_id"), &JsonValue::String(mid.text()));
}

#[test]
fn translate_bus_event_maps_additional_supported_variants() {
    let sid = Uid::new();
    let mid = Uid::new();
    let part_id = Uid::new();

    let session_updated = translate_bus_event(&BusEvent::SessionUpdated { session_id: sid }).unwrap();
    assert_eq!(session_updated.event_type, "session.updated");
    assert_eq!(field(&session_updated.properties, "session_id"), &JsonValue::String(sid.text()));

    let part_added = translate_bus_event(&BusEvent::PartAdded { session_id: sid, message_id: mid, part_id }).unwrap();
    assert_eq!(part_added.event_type, "part.added");
    assert_eq!(field(&part_added.properties, "message_id"), &JsonValue::String(mid.text()));
    assert_eq!(field(&part_added.properties, "part_id"), &JsonValue::String(part_id.text()));

    let tool_started = translate_bus_event(&BusEvent::ToolStarted {
        session_id: sid,
        tool: "shell".into(),
        call_id: "call-1".into(),
    })
    .unwrap();
    assert_eq!(tool_started.event_type, "tool.started");
    assert_eq!(field(&tool_started.properties, "tool"), &JsonValue::String("shell".into()));
    assert_eq!(field(&tool_started.properties, "call_id"), &JsonValue::String("call-1".into()));

    let tool_finished = translate_bus_event(&BusEvent::ToolFinished {
        session_id: sid,
        tool: "shell".into(),
        call_id: "call-1".into(),
        ok: true,
    })
    .unwrap();
    assert_eq!(tool_finished.event_type, "tool.finished");
    assert_eq!(field(&tool_finished.properties, "ok"), &JsonValue::Bool(true));

    let used = translate_bus_event(&BusEvent::ProviderTokensUsed {
        session_id: sid,
        provider: "anthropic".into(),
        model: "sonnet".into(),
        input: 12,
        output: 34,
    })
    .unwrap();
    assert_eq!(used.event_type, "provider.tokens.used");
    assert_eq!(field(&used.properties, "provider"), &JsonValue::String("anthropic".into()));
    assert_eq!(field(&used.properties, "model"), &JsonValue::String("sonnet".into()));
    assert_eq!(field(&used.properties, "input"), &JsonValue::Number(JsonNumber::PosInt(12)));
    assert_eq!(field(&used.properties, "output"), &JsonValue::Number(JsonNumber::PosInt(34)));

    let session_error = translate_bus_event(&BusEvent::SessionError { session_id: sid, error: "boom".into() }).unwrap();
    assert_eq!(session_error.event_type, "session.error");
    assert_eq!(field(&session_error.properties, "error"), &JsonValue::String("boom".into()));
}

#[test]
fn translate_bus_event_drops_internal_or_unsupported_variants() {
    assert!(translate_bus_event(&BusEvent::ConfigChanged).is_none());
    assert!(translate_bus_event(&BusEvent::SessionCreated { session_id: Uid::new(), project_id: Uid::new() }).is_none());
}

#[test]
fn connected_and_heartbeat_payloads() {
    let c = ServerEventPayload::connected();
    assert_eq!(c.event_type, "server.connected");
    assert_eq!(c.properties, JsonValue::Object(vec![]));
    assert_eq!(ServerEventPayload::heartbeat().event_type, "server.heartbeat");
}

fn session_row() -> SessionRow {
    SessionRow {
        id: Uid::new(),
        project_id: Uid::new(),
        workspace_id: None,
        parent_id: None,
        slug: "s".into(),
        directory: "/tmp".into(),
        title: "t".into(),
        version: "1".into(),
        share_url: Some("u".into()),
        summary_additions: Some(1),
        summary_deletions: None,
        summary_files: None,
        summary_diffs: None,
        revert: None,
        permission: None,
        time_created: 0,
        time_updated: 0,
        time_compacting: None,
        time_archived: None,
    }
}

#[test]
fn session_patch_null_clears_and_missing_keeps() {
    let mut row = session_row();
    let patch = SessionPatchDto {
        workspace_id: PatchField::Missing,
        title: Some("new".into()),
        time_updated: None,
        share_url: PatchField::Null,
        summary_additions: PatchField::Missing,
        summary_deletions: PatchField::Value(4),
        summary_files: PatchField::Missing,
        summary_diffs: PatchField::Missing,
        revert: PatchField::Value(parse(r#"{"x": 1}"#)),
        permission: PatchField::Missing,
        time_compacting: PatchField::Missing,
        time_archived: PatchField::Missing,
    };
    patch.apply(&mut row);
    assert_eq!(row.title, "new");
    assert_eq!(row.share_url, None);
    assert_eq!(row.summary_additions, Some(1));
    assert_eq!(row.summary_deletions, Some(4));
    assert_eq!(row.revert, Some(parse(r#"{"x": 1}"#)));
}

#[test]
fn append_message_overrides_session_and_message_ids() {
    let sid = Uid::new();
    let mid = Uid::new();
    let payload = MessageWithParts {
        info: MessageRow { id: mid, session_id: Uid::new(), time_created: 1, time_updated: 2, data: JsonValue::Null },
        parts: vec![PartRow {
            id: Uid::new(),
            message_id: Uid::new(),
            session_id: Uid::new(),
            time_created: 1,
            time_updated: 1,
            data: JsonValue::Null,
        }],
    };
    let (msg, parts) = bind_message_parts(payload, sid);
    assert_eq!(msg.session_id, sid);
    assert_eq!(msg.id, mid);
    assert_eq!(parts.len(), 1);
    assert_eq!(parts[0].session_id, sid);
    assert_eq!(parts[0].message_id, mid);
}

#[test]
fn git_foundation_from_outputs() {
    let pid = Uid::new();
    assert_eq!(repository_root_of(Some("".into())), None);
    let r = git_foundation_record(
        pid,
        Some("/w".into()),
        "/w".into(),
        Some("".into()),
        Some("abc".into()),
        Some("".into()),
        Some("origin/main".into()),
    );
    assert_eq!(r.vcs_kind.as_deref(), Some("git"));
    assert_eq!(r.worktree_state.branch, None);
    assert_eq!(r.worktree_state.is_dirty, Some(false));
    assert_eq!(r.repository_state.default_branch.as_deref(), Some("main"));
    assert_eq!(r.sync_basis.as_ref().unwrap().head_oid.as_deref(), Some("abc"));
    let u = unknown_foundation_record(pid, None);
    assert!(u.repository_root.is_none() && u.sync_basis.is_none());
}

#[test]
fn stream_body_defaults_token_cap() {
    let body = StreamBody { provider: "p".into(), model: "m".into(), prompt: "hi".into(), max_tokens: None };
    assert_eq!(stream_max_tokens(&body), 1024);
}

#[test]
fn stream_admission_checks_harness_then_provider() {
    assert_eq!(stream_admission(false, true, "anthropic"), Err((403, "harness disabled".to_string())));
    assert_eq!(stream_admission(false, false, "x"), Err((403, "harness disabled".to_string())));
    assert_eq!(stream_admission(true, false, "nope"), Err((404, "unknown provider: nope".to_string())));
    assert_eq!(stream_admission(true, true, "anthropic"), Ok(()));
}

#[test]
fn workspace_patch_validation_and_create_fields() {
    let row = WorkspaceRow {
        id: Uid::new(),
        kind: "worktree".into(),
        branch: None,
        name: None,
        directory: None,
        extra: None,
        project_id: Uid::new(),
    };
    let patch = WorkspacePatchDto {
        kind: Some("remote".into()),
        branch: PatchField::Missing,
        name: PatchField::Missing,
        directory: PatchField::Missing,
        extra: PatchField::Value(parse(r#"{"instance": "i", "base_url": "ftp://x"}"#)),
    };
    let err = prepare_patch(row, patch).unwrap_err();
    assert_eq!(err.status(), 400);
    assert_eq!(err.message(), "remote workspace base_url must be an absolute http(s) URL");

    let dto = WorkspaceCreateDto {
        id: None,
        kind: "worktree".into(),
        branch: Some("main".into()),
        name: Some("dev".into()),
        directory: Some("/src".into()),
        extra: None,
        project_id: Uid::new(),
    };
    let row = prepare_create(dto).unwrap();
    assert_eq!(row.branch.as_deref(), Some("main"));
    assert_eq!(row.name.as_deref(), Some("dev"));
    assert_eq!(row.directory.as_deref(), Some("/src"));
}

#[test]
fn provider_failures_map_to_http_answers() {
    let e = map_provider_error(ProviderFailure::Auth { msg: "bad key".into() });
    assert_eq!((e.status(), e.message().as_str()), (400, "bad key"));
    let e = map_provider_error(ProviderFailure::ContextLength { model: "m1".into() });
    assert_eq!((e.status(), e.message().as_str()), (400, "context length exceeded for model m1"));
    let e = map_provider_error(ProviderFailure::RateLimit { provider: "openai".into(), retry_after: Some(30) });
    assert_eq!((e.status(), e.message().as_str()), (409, "rate limited by openai (retry after 30s)"));
    let e = map_provider_error(ProviderFailure::RateLimit { provider: "openai".into(), retry_after: None });
    assert_eq!((e.status(), e.message().as_str()), (409, "rate limited by openai"));
    let e = map_provider_error(ProviderFailure::Stream { msg: "eof".into() });
    assert_eq!((e.status(), e.message().as_str()), (500, "eof"));
    let e = map_provider_error(ProviderFailure::CircuitOpen { provider: "p".into(), model: "m".into() });
    assert_eq!((e.status(), e.message().as_str()), (409, "circuit breaker open for p/m"));
    let e = map_provider_error(ProviderFailure::Other { text: "boom".into() });
    assert_eq!((e.status(), e.message().as_str()), (500, "boom"));
}
