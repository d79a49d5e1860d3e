use opencode::control_plane::error::ControlPlaneError;
use opencode::control_plane::observability::ControlPlaneMetrics;
use opencode::control_plane::policy::{HttpMethod, PolicyAction, RoutePolicy};
use opencode::control_plane::proxy::{
    backoff_for_attempt, build_upstream_headers, filter_response_headers, is_websocket_upgrade,
    should_strip_header, upstream_url, AttemptOutcome, ForwardLoop, ForwardStep,
};
use opencode::control_plane::resolver::resolve_selector;
use opencode::control_plane::{
    middleware_end, middleware_start, MiddlewareEnd, MiddlewareStart, ControlPlaneService, DecideStep, RemoteTarget, RoutingDecision, SelectorSource,
    WorkspaceSelector,
};
use opencode::errors::StorageError;
use opencode::ids::Uid;
use opencode::json::{JsonNumber, JsonValue};
use opencode::server::state::{ControlPlaneConfig, ProxyPolicy};
use opencode::server::workspace::WorkspaceRow;

fn header_of(uri: &axum::http::Uri, headers: &axum::http::HeaderMap) -> (Option<String>, Option<Option<String>>) {
    let q = uri.query().map(|s| s.to_string());
    let h = headers
        .get("x-opencode-workspace")
        .map(|v| v.to_str().ok().map(|s| s.to_string()));
    (q, h)
}

fn resolve(
    uri: &axum::http::Uri,
    headers: &axum::http::HeaderMap,
) -> Result<Option<WorkspaceSelector>, ControlPlaneError> {
    let (q, h) = header_of(uri, headers);
    let h2 = h.as_ref().map(|o| o.as_deref());
    resolve_selector(q.as_deref(), h2)
}

fn object(entries: Vec<(&str, JsonValue)>) -> JsonValue {
    JsonValue::Object(entries.into_iter().map(|(k, v)| (k.to_string(), v)).collect())
}

fn text(s: &str) -> JsonValue {
    JsonValue::String(s.to_string())
}

#[test]
fn timeout_maps_to_gateway_timeout() {
    assert_eq!(
        ControlPlaneError::UpstreamTimeout { attempts: 3 }.status_code(),
        axum::http::StatusCode::GATEWAY_TIMEOUT.as_u16()
    );
}

#[test]
fn websocket_deferral_maps_to_not_implemented() {
    assert_eq!(
        ControlPlaneError::WebSocketForwardingDeferred.status_code(),
        axum::http::StatusCode::NOT_IMPLEMENTED.as_u16()
    );
}

#[test]
fn timeout_error_body_carries_code_and_attempts() {
    let body = ControlPlaneError::UpstreamTimeout { attempts: 2 }.error_body();
    let expected = object(vec![(
        "error",
        object(vec![
            ("code", text("upstream_timeout")),
            ("message", text("upstream request timed out after 2 attempt(s)")),
            ("attempts", JsonValue::Number(JsonNumber::PosInt(2))),
        ]),
    )]);
    assert_eq!(body, expected);
}

#[test]
fn error_texts_and_codes() {
    let e = ControlPlaneError::WorkspaceMetadataInvalid {
        selector: "w1".to_string(),
        message: "bad".to_string(),
    };
    assert_eq!(e.message(), "workspace metadata for selector 'w1' is invalid: bad");
    assert_eq!(e.code(), "workspace_metadata_invalid");
    assert_eq!(e.status_code(), 400);
    let nf = ControlPlaneError::WorkspaceNotFound { selector: "w2".to_string() };
    assert_eq!(nf.message(), "workspace selector 'w2' not found");
    assert_eq!(nf.status_code(), 404);
    assert_eq!(ControlPlaneError::UpstreamFailure { message: "x".into() }.status_code(), 502);
    assert_eq!(ControlPlaneError::Internal { message: "y".into() }.code(), "control_plane_internal");
}

#[test]
fn counters_increment_for_attempt_retry_and_timeout() {
    let mut metrics = ControlPlaneMetrics::default();
    metrics.record_forward_attempt(1, "https://upstream.example/path");
    metrics.record_forward_retry(1, "deadline exceeded");
    metrics.record_timeout_failure(2);

    assert_eq!(metrics.forward_attempts(), 1);
    assert_eq!(metrics.forward_retries(), 1);
    assert_eq!(metrics.forward_timeout_failures(), 1);
}

#[test]
fn counters_increment_for_local_and_forward_decisions() {
    let mut metrics = ControlPlaneMetrics::default();
    let selector = WorkspaceSelector {
        raw: "selector-a".into(),
        source: SelectorSource::Query,
    };
    metrics.record_local_decision(&selector, &HttpMethod::Get, "/api/v1/sessions/abc");
    metrics.record_forward_decision(
        &selector,
        &HttpMethod::Post,
        "/api/v1/sessions/abc/prompt",
        &RemoteTarget {
            workspace_id: Uid::new(),
            instance_id: "remote-a".into(),
            base_url: "https://remote-a.example".into(),
        },
    );

    assert_eq!(metrics.decisions_local(), 1);
    assert_eq!(metrics.decisions_forward(), 1);
}

#[test]
fn session_routes_are_eligible_for_forwarding() {
    let policy = RoutePolicy;
    assert_eq!(
        policy.classify(&HttpMethod::Post, "/api/v1/sessions/abc/prompt"),
        PolicyAction::Eligible
    );
    assert_eq!(
        policy.classify(&HttpMethod::Get, "/api/v1/projects/pid/sessions"),
        PolicyAction::Eligible
    );
    assert_eq!(policy.classify(&HttpMethod::Get, "/sessions/abc"), PolicyAction::Eligible);
}

#[test]
fn workspace_and_config_routes_stay_local_only() {
    let policy = RoutePolicy;
    assert_eq!(policy.classify(&HttpMethod::Get, "/api/v1/workspaces"), PolicyAction::LocalOnly);
    assert_eq!(policy.classify(&HttpMethod::Patch, "/api/v1/config"), PolicyAction::LocalOnly);
}

#[test]
fn ts_route_policy_parity_fixtures_match_expected_actions() {
    let policy = RoutePolicy;
    let fixtures = [
        (HttpMethod::Get, "/api/v1/session/status", PolicyAction::Eligible),
        (HttpMethod::Get, "/api/v1/session/abc/status", PolicyAction::LocalOnly),
        (HttpMethod::Get, "/api/v1/session/abc/message", PolicyAction::LocalOnly),
        (HttpMethod::Post, "/api/v1/session/abc/abort", PolicyAction::Eligible),
    ];
    for (method, path, expected) in fixtures {
        assert_eq!(policy.classify(&method, path), expected, "parity mismatch for {path}");
    }
}

#[test]
fn policy_other_methods_and_paths_stay_local() {
    let policy = RoutePolicy;
    assert_eq!(policy.classify(&HttpMethod::Delete, "/api/v1/sessions/abc"), PolicyAction::LocalOnly);
    assert_eq!(policy.classify(&HttpMethod::Patch, "sessions/abc"), PolicyAction::Eligible);
    assert_eq!(policy.classify(&HttpMethod::Post, "/api/v1/sessions/abc/cancel"), PolicyAction::Eligible);
    assert_eq!(policy.classify(&HttpMethod::Get, "/api/v2/sessions/abc"), PolicyAction::LocalOnly);
}

#[test]
fn query_selector_takes_precedence_over_header() {
    let uri: axum::http::Uri = "/api/v1/sessions/abc?workspace=from-query".parse().unwrap();
    let mut headers = axum::http::HeaderMap::new();
    headers.insert(
        "x-opencode-workspace",
        axum::http::HeaderValue::from_static("from-header"),
    );
    let selector = resolve(&uri, &headers)
        .expect("resolution should succeed")
        .expect("selector should exist");
    assert_eq!(selector.raw, "from-query");
    assert_eq!(selector.source, SelectorSource::Query);
}

#[test]
fn header_selector_used_when_query_is_missing() {
    let uri: axum::http::Uri = "/api/v1/sessions/abc".parse().unwrap();
    let mut headers = axum::http::HeaderMap::new();
    headers.insert(
        "x-opencode-workspace",
        axum::http::HeaderValue::from_static("from-header"),
    );
    let selector = resolve(&uri, &headers)
        .expect("resolution should succeed")
        .expect("selector should exist");
    assert_eq!(selector.raw, "from-header");
    assert_eq!(selector.source, SelectorSource::Header);
}

#[test]
fn empty_query_selector_returns_bad_request_error() {
    let uri: axum::http::Uri = "/api/v1/sessions/abc?workspace=".parse().unwrap();
    let headers = axum::http::HeaderMap::new();
    let err = resolve(&uri, &headers).expect_err("empty selector must fail");
    assert!(matches!(err, ControlPlaneError::SelectorMalformed { .. }));
}

#[test]
fn control_plane_selector_module_exposes_query_first_resolution() {
    let uri: axum::http::Uri = "/api/v1/sessions/abc?workspace=query-wins".parse().unwrap();
    let mut headers = axum::http::HeaderMap::new();
    headers.insert(
        "x-opencode-workspace",
        axum::http::HeaderValue::from_static("header-fallback"),
    );
    let selector = resolve(&uri, &headers)
        .expect("selector resolution should succeed")
        .expect("query selector should be found");
    assert_eq!(selector.raw, "query-wins");
}

#[test]
fn selector_query_trims_and_skips_other_pairs() {
    let r = resolve_selector(Some("a=1&&workspace=%20x%20&workspace=y"), None).unwrap().unwrap();
    assert_eq!(r.raw, "%20x%20");
    let r = resolve_selector(Some("a=1&workspace=  w1  "), None).unwrap().unwrap();
    assert_eq!(r.raw, "w1");
    assert!(resolve_selector(Some("a=1"), None).unwrap().is_none());
    let e = resolve_selector(None, Some(Some("   "))).unwrap_err();
    match e {
        ControlPlaneError::SelectorMalformed { message } => {
            assert_eq!(message, "workspace selector header must be non-empty")
        }
        _ => panic!("wrong error"),
    }
    let e = resolve_selector(None, Some(None)).unwrap_err();
    assert_eq!(e.message(), "invalid workspace selector: workspace selector header must be valid UTF-8");
}

fn remote_row(instance: &str) -> WorkspaceRow {
    WorkspaceRow {
        id: Uid::new(),
        kind: "remote".into(),
        branch: None,
        name: Some("alpha".into()),
        directory: None,
        extra: Some(object(vec![
            ("instance", text(instance)),
            ("base_url", text("https://remote.example")),
        ])),
        project_id: Uid::new(),
    }
}

fn decide(service: &ControlPlaneService, selector: &WorkspaceSelector, row: Option<WorkspaceRow>) -> Result<RoutingDecision, ControlPlaneError> {
    match service.decide_start(selector) {
        DecideStep::Decided(r) => r,
        DecideStep::Lookup(id) => service.decide_finish(selector, id, Ok(row)),
    }
}

#[test]
fn decide_local_forward_and_override() {
    let wid = Uid::new();
    let selector = WorkspaceSelector { raw: wid.text(), source: SelectorSource::Query };
    let local = ControlPlaneService::new(ControlPlaneConfig::new("cp-local".into(), false, ProxyPolicy::default()));
    assert_eq!(decide(&local, &selector, Some(remote_row("cp-local"))).unwrap(), RoutingDecision::Local);
    match decide(&local, &selector, Some(remote_row("cp-remote"))).unwrap() {
        RoutingDecision::Forward(t) => {
            assert_eq!(t.workspace_id, wid);
            assert_eq!(t.instance_id, "cp-remote");
            assert_eq!(t.base_url, "https://remote.example");
        }
        RoutingDecision::Local => panic!("remote workspace should forward"),
    }
    let forced = ControlPlaneService::new(ControlPlaneConfig::new("cp-local".into(), true, ProxyPolicy::default()));
    assert_eq!(decide(&forced, &selector, Some(remote_row("cp-remote"))).unwrap(), RoutingDecision::Local);
    let bad = WorkspaceSelector { raw: "not-a-uuid".into(), source: SelectorSource::Header };
    let err = decide(&local, &bad, None).unwrap_err();
    assert_eq!(err.message(), "invalid workspace selector: workspace selector must be a valid workspace id");
    let err = decide(&local, &selector, None).unwrap_err();
    assert!(matches!(err, ControlPlaneError::WorkspaceNotFound { .. }));
    let err = local
        .decide_finish(&selector, wid, Err(StorageError::Db("down".into())))
        .unwrap_err();
    assert_eq!(err.message(), "control-plane internal error: workspace lookup failed: database error: down");
}

#[test]
fn websocket_upgrade_is_detected() {
    assert!(is_websocket_upgrade(Some("websocket"), Some("Upgrade")));
    assert!(is_websocket_upgrade(Some("WebSocket"), Some("keep-alive, UPGRADE")));
    assert!(!is_websocket_upgrade(Some("websocket"), None));
    assert!(!is_websocket_upgrade(None, Some("upgrade")));
    assert!(!is_websocket_upgrade(Some("h2c"), Some("upgrade")));
}

#[test]
fn hop_by_hop_headers_are_stripped_case_insensitively() {
    assert!(should_strip_header("Connection"));
    assert!(should_strip_header("host"));
    assert!(should_strip_header("Transfer-Encoding"));
    assert!(!should_strip_header("authorization"));
    assert!(!should_strip_header("x-opencode-workspace"));
}

#[test]
fn backoff_doubles_per_attempt_and_saturates() {
    let base = 5_000_000u128;
    assert_eq!(backoff_for_attempt(base, 0), base);
    assert_eq!(backoff_for_attempt(base, 1), base);
    assert_eq!(backoff_for_attempt(base, 2), 2 * base);
    assert_eq!(backoff_for_attempt(base, 4), 8 * base);
    let max = std::time::Duration::MAX.as_nanos();
    assert_eq!(backoff_for_attempt(max, 3), max);
    assert_eq!(backoff_for_attempt(1, 40), u32::MAX as u128);
}

#[test]
fn forward_loop_retries_then_times_out() {
    let policy = ProxyPolicy::bounded(20_000_000, 1, 5_000_000);
    let mut lp = ForwardLoop::new(policy);
    let mut metrics = ControlPlaneMetrics::default();
    assert_eq!(lp.begin_attempt(&mut metrics, "u"), Some(1));
    match lp.after_attempt(AttemptOutcome::TimedOut, &mut metrics) {
        ForwardStep::Retry(d) => assert_eq!(d, 10_000_000),
        _ => panic!("should retry"),
    }
    assert_eq!(lp.begin_attempt(&mut metrics, "u"), Some(2));
    match lp.after_attempt(AttemptOutcome::TimedOut, &mut metrics) {
        ForwardStep::Fail(ControlPlaneError::UpstreamTimeout { attempts }) => assert_eq!(attempts, 2),
        _ => panic!("should time out"),
    }
    assert_eq!(lp.begin_attempt(&mut metrics, "u"), None);
    assert_eq!(metrics.forward_attempts(), 2);
    assert_eq!(metrics.forward_retries(), 1);
    assert_eq!(metrics.forward_timeout_failures(), 1);
}

#[test]
fn forward_loop_delivers_and_reports_failures() {
    let mut lp = ForwardLoop::new(ProxyPolicy::bounded(20_000_000, 0, 5_000_000));
    let mut metrics = ControlPlaneMetrics::default();
    assert_eq!(lp.begin_attempt(&mut metrics, "u"), Some(1));
    match lp.after_attempt(AttemptOutcome::Failed("refused".into()), &mut metrics) {
        ForwardStep::Fail(ControlPlaneError::UpstreamFailure { message }) => assert_eq!(message, "refused"),
        _ => panic!("should fail"),
    }
    let mut lp = ForwardLoop::new(ProxyPolicy::default());
    assert_eq!(lp.begin_attempt(&mut metrics, "u"), Some(1));
    assert!(matches!(lp.after_attempt(AttemptOutcome::Succeeded, &mut metrics), ForwardStep::Deliver));
}

#[test]
fn upstream_headers_strip_internal_and_add_forwarded_context() {
    let source = vec![
        ("authorization".to_string(), b"Bearer token-value".to_vec()),
        ("x-opencode-workspace".to_string(), b"wid".to_vec()),
        ("connection".to_string(), b"keep-alive".to_vec()),
        ("accept".to_string(), b"a".to_vec()),
        ("accept".to_string(), b"b".to_vec()),
    ];
    let target = RemoteTarget {
        workspace_id: Uid::new(),
        instance_id: "cp-remote".into(),
        base_url: "https://x".into(),
    };
    let selector = WorkspaceSelector { raw: "wid".into(), source: SelectorSource::Header };
    let out = build_upstream_headers(&source, &target, &selector).unwrap();
    let expected = vec![
        ("authorization".to_string(), b"Bearer token-value".to_vec()),
        ("accept".to_string(), b"b".to_vec()),
        ("x-opencode-forwarded-workspace-selector".to_string(), b"wid".to_vec()),
        ("x-opencode-forwarded-workspace-source".to_string(), b"header".to_vec()),
        ("x-opencode-forwarded-workspace-instance".to_string(), b"cp-remote".to_vec()),
    ];
    assert_eq!(out, expected);
    let bad = WorkspaceSelector { raw: "w\u{7f}".into(), source: SelectorSource::Query };
    let err = build_upstream_headers(&source, &target, &bad).unwrap_err();
    assert_eq!(err.message(), "control-plane internal error: invalid selector header value: failed to parse header value");
}

#[test]
fn response_headers_keep_first_values_without_hop_by_hop() {
    let hs = vec![
        (Some("content-type".to_string()), b"text/plain".to_vec()),
        (None, b"ignored".to_vec()),
        (Some("connection".to_string()), b"close".to_vec()),
        (Some("x-a".to_string()), b"1".to_vec()),
    ];
    let out = filter_response_headers(hs);
    assert_eq!(
        out,
        vec![
            ("content-type".to_string(), b"text/plain".to_vec()),
            ("x-a".to_string(), b"1".to_vec()),
        ]
    );
}

#[test]
fn upstream_url_joins_path_and_query() {
    let u = upstream_url("https://cp-a.example/base", "/api/v1/sessions/abc", Some("workspace=wid")).unwrap();
    assert_eq!(u, "https://cp-a.example/api/v1/sessions/abc?workspace=wid");
    let u = upstream_url("http://127.0.0.1:8080", "/x", None).unwrap();
    assert_eq!(u, "http://127.0.0.1:8080/x");
    let err = upstream_url("not a url", "/x", None).unwrap_err();
    assert!(err.message().starts_with("control-plane internal error: invalid remote base_url 'not a url': "));
}

#[test]
fn control_plane_defaults_are_safe_for_local_only_runtime() {
    let cfg = ControlPlaneConfig::default();
    assert_eq!(cfg.instance_id, "local");
    assert!(!cfg.force_local_only);
    assert_eq!(cfg.proxy.timeout, std::time::Duration::from_secs(5).as_nanos());
    assert_eq!(cfg.proxy.max_retries, 2);
    assert_eq!(cfg.proxy.backoff, std::time::Duration::from_millis(200).as_nanos());
}

#[test]
fn control_plane_proxy_policy_clamps_extreme_values() {
    let cfg = ControlPlaneConfig::new(
        "instance-a".into(),
        true,
        ProxyPolicy::bounded(
            std::time::Duration::from_millis(10).as_nanos(),
            99,
            std::time::Duration::from_millis(1).as_nanos(),
        ),
    );
    assert_eq!(cfg.instance_id, "instance-a");
    assert!(cfg.force_local_only);
    assert_eq!(cfg.proxy.timeout, std::time::Duration::from_millis(100).as_nanos());
    assert_eq!(cfg.proxy.max_retries, 5);
    assert_eq!(cfg.proxy.backoff, std::time::Duration::from_millis(10).as_nanos());
}

#[test]
fn blank_instance_id_becomes_local() {
    let cfg = ControlPlaneConfig::new("  \t".into(), false, ProxyPolicy::default());
    assert_eq!(cfg.instance_id, "local");
    let p = ProxyPolicy::bounded(500_000_000_000, 3, 6_000_000_000);
    assert_eq!(p.timeout, 120_000_000_000);
    assert_eq!(p.max_retries, 3);
    assert_eq!(p.backoff, 5_000_000_000);
}

#[test]
fn middleware_passes_local_routes_and_missing_selectors() {
    assert!(matches!(
        middleware_start(&HttpMethod::Get, "/api/v1/workspaces", Some("workspace=w"), None),
        MiddlewareStart::PassThrough
    ));
    assert!(matches!(
        middleware_start(&HttpMethod::Get, "/api/v1/sessions/abc", None, None),
        MiddlewareStart::PassThrough
    ));
    assert!(matches!(
        middleware_start(&HttpMethod::Get, "/api/v1/sessions/abc", Some("workspace="), None),
        MiddlewareStart::Reject(ControlPlaneError::SelectorMalformed { .. })
    ));
    let selector = match middleware_start(&HttpMethod::Get, "/api/v1/sessions/abc", None, Some(Some("w1"))) {
        MiddlewareStart::Route(s) => s,
        _ => panic!("should route"),
    };
    assert_eq!(selector.raw, "w1");
    let mut metrics = ControlPlaneMetrics::default();
    let target = RemoteTarget { workspace_id: Uid::new(), instance_id: "i".into(), base_url: "https://x".into() };
    let end = middleware_end(
        Ok(RoutingDecision::Forward(target.clone())),
        &selector,
        &HttpMethod::Get,
        "/api/v1/sessions/abc",
        Some("websocket"),
        Some("Upgrade"),
        &mut metrics,
    );
    match end {
        MiddlewareEnd::Reject(e) => assert_eq!(e.status_code(), 501),
        _ => panic!("websocket forwarding must be deferred"),
    }
    let end = middleware_end(Ok(RoutingDecision::Forward(target)), &selector, &HttpMethod::Get, "/p", None, None, &mut metrics);
    assert!(matches!(end, MiddlewareEnd::Forward(_)));
    let end = middleware_end(Ok(RoutingDecision::Local), &selector, &HttpMethod::Get, "/p", None, None, &mut metrics);
    assert!(matches!(end, MiddlewareEnd::PassThrough));
    assert_eq!(metrics.decisions_forward(), 2);
    assert_eq!(metrics.decisions_local(), 1);
}

#[test]
fn bounding_twice_changes_nothing() {
    let once = ProxyPolicy::bounded(1, 7, 999_999_999_999);
    let twice = ProxyPolicy::bounded(once.timeout, once.max_retries, once.backoff);
    assert_eq!(once, twice);
    assert_eq!(once.timeout, 100_000_000);
    assert_eq!(once.backoff, 5_000_000_000);
}

#[test]
fn uuid_text_round_trips_through_parse() {
    let id = Uid::parse("0195df90-4283-7b90-a362-d47f3076a913").unwrap();
    assert_eq!(id.0, 0x0195df9042837b90a362d47f3076a913u128);
    assert_eq!(id.text(), "0195df90-4283-7b90-a362-d47f3076a913");
    assert!(Uid::parse("not-a-uuid").is_none());
    let fresh = Uid::new();
    assert_eq!(Uid::parse(&fresh.text()), Some(fresh));
}

#[test]
fn oauth_account_input_names_the_provider() {
    let id = Uid::new();
    let input = opencode::server::provider::oauth_account_input("github", id, 1_000);
    assert_eq!(input.email, "github@opencode.dev");
    assert_eq!(input.url, "https://github.opencode.dev");
    assert_eq!(input.access_token, "github-access-token");
    assert_eq!(input.refresh_token, "github-refresh-token");
    assert_eq!(input.token_expiry, Some(3_601_000));
}

#[test]
fn fresh_ids_are_version_7_uuids() {
    let a = Uid::new();
    let b = Uid::new();
    assert_eq!(uuid::Uuid::from_u128(a.0).get_version_num(), 7);
    assert_eq!(uuid::Uuid::from_u128(b.0).get_variant(), uuid::Variant::RFC4122);
    assert_eq!((a.0 >> 76) & 0xf, 7);
    assert_eq!((a.0 >> 62) & 3, 2);
    assert_ne!(a, b);
}

#[test]
fn middleware_answers_a_failed_decision_with_its_own_error() {
    let selector = WorkspaceSelector { raw: "w1".into(), source: SelectorSource::Header };
    let mut metrics = ControlPlaneMetrics::default();
    let end = middleware_end(
        Err(ControlPlaneError::WorkspaceNotFound { selector: "w1".into() }),
        &selector,
        &HttpMethod::Get,
        "/api/v1/sessions/abc",
        Some("websocket"),
        Some("Upgrade"),
        &mut metrics,
    );
    match end {
        MiddlewareEnd::Reject(ControlPlaneError::WorkspaceNotFound { selector }) => assert_eq!(selector, "w1"),
        _ => panic!("the decision's own error must be answered"),
    }
    assert_eq!(metrics.decisions_forward(), 0);
    assert_eq!(metrics.decisions_local(), 0);
}

#[test]
fn id_text_is_hyphenated_lower_case_hex() {
    for v in [0u128, 1, 0x0123_4567_89ab_cdef_0123_4567_89ab_cdef, u128::MAX] {
        assert_eq!(Uid(v).text(), uuid::Uuid::from_u128(v).hyphenated().to_string());
    }
    assert_eq!(Uid(0x0123_4567_89ab_cdef_0123_4567_89ab_cdef).text(), "01234567-89ab-cdef-0123-456789abcdef");
}
