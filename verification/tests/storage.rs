use opencode::errors::StorageError;
use opencode::json::{JsonNumber, JsonValue};
use opencode::storage::event_store::{StoredEvent, SyncEventStore};
use opencode::storage::permission::{merge_allow_rules, normalize_rules};
use opencode::storage::workspace::{decode_extra, encode_extra, parse_stored_id};

fn to_json(v: &serde_json::Value) -> JsonValue {
    match v {
        serde_json::Value::Null => JsonValue::Null,
        serde_json::Value::Bool(b) => JsonValue::Bool(*b),
        serde_json::Value::Number(n) => {
            if let Some(u) = n.as_u64() {
                JsonValue::Number(JsonNumber::PosInt(u))
            } else if let Some(i) = n.as_i64() {
                JsonValue::Number(JsonNumber::NegInt(i))
            } else {
                JsonValue::Number(JsonNumber::Float(n.to_string()))
            }
        }
        serde_json::Value::String(s) => JsonValue::String(s.clone()),
        serde_json::Value::Array(a) => JsonValue::Array(a.iter().map(to_json).collect()),
        serde_json::Value::Object(o) => {
            JsonValue::Object(o.iter().map(|(k, v)| (k.clone(), to_json(v))).collect())
        }
    }
}

fn to_serde(v: &JsonValue) -> serde_json::Value {
    match v {
        JsonValue::Null => serde_json::Value::Null,
        JsonValue::Bool(b) => serde_json::Value::Bool(*b),
        JsonValue::Number(JsonNumber::PosInt(u)) => serde_json::Value::from(*u),
        JsonValue::Number(JsonNumber::NegInt(i)) => serde_json::Value::from(*i),
        JsonValue::Number(JsonNumber::Float(t)) => serde_json::from_str(t).unwrap(),
        JsonValue::String(s) => serde_json::Value::String(s.clone()),
        JsonValue::Array(a) => serde_json::Value::Array(a.iter().map(to_serde).collect()),
        JsonValue::Object(es) => serde_json::Value::Object(
            es.iter().map(|(k, v)| (k.clone(), to_serde(v))).collect(),
        ),
    }
}

fn parse(text: &str) -> JsonValue {
    to_json(&serde_json::from_str::<serde_json::Value>(text).unwrap())
}

#[test]
fn normalize_rules_filters_invalid_entries() {
    let normalized = normalize_rules(&parse(
        r#"[
            {"permission": "bash", "pattern": "git:*", "action": "allow"},
            {"permission": "bash", "pattern": "git:*", "action": "allow"},
            {"permission": "bash", "pattern": 12, "action": "allow"},
            {"permission": "read", "pattern": "secret:*", "action": "deny"},
            {"permission": "bash", "pattern": "rm:*", "action": "maybe"}
        ]"#,
    ));
    assert_eq!(normalized.len(), 2);
    assert_eq!(normalized[0].permission, "bash");
    assert_eq!(normalized[0].pattern, "git:*");
    assert_eq!(normalized[0].action, "allow");
    assert_eq!(normalized[1].action, "deny");
}

#[test]
fn merge_allow_rules_adds_unique_allow_entries() {
    let merged = merge_allow_rules(
        &parse(
            r#"[
                {"permission": "bash", "pattern": "git:status", "action": "allow"},
                {"permission": "bash", "pattern": "rm:*", "action": "deny"}
            ]"#,
        ),
        "bash",
        &vec!["git:status".into(), "git:commit".into()],
    );
    let expected = serde_json::from_str::<serde_json::Value>(
        r#"[
            {"permission": "bash", "pattern": "git:status", "action": "allow"},
            {"permission": "bash", "pattern": "rm:*", "action": "deny"},
            {"permission": "bash", "pattern": "git:commit", "action": "allow"}
        ]"#,
    )
    .unwrap();
    assert_eq!(to_serde(&merged), expected);
}

#[test]
fn normalize_rules_of_non_array_is_empty() {
    assert!(normalize_rules(&parse(r#"{"a": 1}"#)).is_empty());
}

#[test]
fn stored_event_fields_accessible() {
    let ev = StoredEvent {
        seq: 1,
        aggregate_id: "agg".into(),
        event_type: "Test".into(),
        data: parse(r#"{"key": "val"}"#),
    };
    assert_eq!(ev.seq, 1);
    assert_eq!(ev.aggregate_id, "agg");
    assert_eq!(ev.event_type, "Test");
}

#[test]
fn event_store_calls_report_not_implemented() {
    let store = SyncEventStore;
    let err = store.append("agg-1", "SessionCreated", parse("{}")).unwrap_err();
    assert!(err.message().contains("not yet implemented"));
    let err = store.list_since("agg-1", 0).unwrap_err();
    assert!(matches!(err, StorageError::Db(_)));
}

#[test]
fn merge_is_idempotent_and_keeps_existing_rules() {
    let existing = parse(
        r#"[
            {"permission": "bash", "pattern": "rm:*", "action": "deny"},
            {"permission": "bash", "pattern": "rm:*", "action": "deny"}
        ]"#,
    );
    let patterns = vec!["git:status".to_string(), "git:status".to_string()];
    let once = merge_allow_rules(&existing, "bash", &patterns);
    let twice = merge_allow_rules(&once, "bash", &patterns);
    assert_eq!(to_serde(&once), to_serde(&twice));
    let rules = normalize_rules(&once);
    assert_eq!(rules.len(), 2);
    assert_eq!(rules[0].action, "deny");
    assert_eq!(rules[1].pattern, "git:status");
}

#[test]
fn allow_rules_keep_only_allow_actions() {
    let data = parse(
        r#"[
            {"permission": "bash", "pattern": "a", "action": "ask"},
            {"permission": "bash", "pattern": "b", "action": "allow"},
            {"permission": "bash", "pattern": "c", "action": "deny"}
        ]"#,
    );
    let rules = opencode::storage::permission::allow_rules_of(&data);
    assert_eq!(rules.len(), 1);
    assert_eq!(rules[0].pattern, "b");
}

#[test]
fn normalizing_a_merge_keeps_old_rules_then_appends_new_ones() {
    let existing = parse(
        r#"[
            {"permission": "bash", "pattern": "rm:*", "action": "deny"},
            {"permission": "bash", "pattern": "git:status", "action": "allow"},
            {"permission": "bash", "pattern": "rm:*", "action": "deny"}
        ]"#,
    );
    let merged = merge_allow_rules(&existing, "bash", &vec!["git:push".into(), "git:status".into(), "git:push".into()]);
    let before = normalize_rules(&existing);
    let after = normalize_rules(&merged);
    assert_eq!(before.len(), 2);
    assert_eq!(after.len(), 3);
    for (a, b) in before.iter().zip(after.iter()) {
        assert_eq!((&a.permission, &a.pattern, &a.action), (&b.permission, &b.pattern, &b.action));
    }
    assert_eq!((after[2].permission.as_str(), after[2].pattern.as_str(), after[2].action.as_str()), ("bash", "git:push", "allow"));
}

#[test]
fn encode_decode_extra_handles_none_and_json() {
    assert_eq!(encode_extra(&None).expect("encode none"), None);
    assert_eq!(decode_extra(None).expect("decode none"), None);

    let payload = Some(parse(r#"{"k": "v", "n": 7}"#));
    let encoded = encode_extra(&payload).expect("encode payload");
    let decoded = decode_extra(encoded).expect("decode payload");
    assert_eq!(decoded.as_ref().map(to_serde), payload.as_ref().map(to_serde));
}

#[test]
fn decode_extra_rejects_invalid_json() {
    let err = decode_extra(Some("not-json".into())).expect_err("invalid json should fail");
    assert!(matches!(err, StorageError::Serde(_)));
}

#[test]
fn decoded_extra_is_the_stored_json() {
    let decoded = decode_extra(Some(r#"{"instance": "i-1", "base_url": "https://x", "n": -3, "f": 1.5}"#.into()))
        .unwrap()
        .unwrap();
    let expected = serde_json::from_str::<serde_json::Value>(r#"{"instance": "i-1", "base_url": "https://x", "n": -3, "f": 1.5}"#).unwrap();
    assert_eq!(to_serde(&decoded), expected);
    let text = encode_extra(&Some(parse(r#"{"a": [1, true, null]}"#))).unwrap().unwrap();
    assert_eq!(serde_json::from_str::<serde_json::Value>(&text).unwrap(), serde_json::from_str::<serde_json::Value>(r#"{"a": [1, true, null]}"#).unwrap());
}

#[test]
fn stored_ids_read_back_or_report_the_parse_error() {
    let id = parse_stored_id("01234567-89ab-cdef-0123-456789abcdef").unwrap();
    assert_eq!(id.0, 0x0123_4567_89ab_cdef_0123_4567_89ab_cdef);
    match parse_stored_id("not-an-id") {
        Err(StorageError::Db(m)) => assert_eq!(m, uuid::Uuid::parse_str("not-an-id").unwrap_err().to_string()),
        _ => panic!("a malformed id is a database error"),
    }
}
