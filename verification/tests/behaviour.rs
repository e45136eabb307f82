//! The parts of the binding, one by one, on concrete values.

use std::collections::BTreeMap;

use mcpg_backend_graphql::binding::{
    default_max_response_bytes, default_timeout_ms, plan_registration, secret_refs,
    GraphqlBackendSpec, GraphqlBackendSpecFields, RegistrationPlan,
};
use mcpg_backend_graphql::call::{
    graphql_body, plan_call, read_variables, tool_name, trace_headers, CallResult, GraphqlProfile,
};
use mcpg_backend_graphql::codec::{
    json_from_value, json_to_value, parse_bytes, parse_text, render_bytes,
};
use mcpg_backend_graphql::envelope::{
    draft_reply_envelope, envelope_response, graphql_errors_downstream_error, has_graphql_errors,
    response_from_bytes, select_downstream_error, HttpOutcome,
};
use mcpg_backend_graphql::json::Json;
use mcpg_backend_graphql::protocol::{
    BackendError, BackendRequest, DownstreamHttpError, HttpBackendMethod, HttpRequestProfile,
    HttpResponseSummary, IdempotencyHint, PluginClass,
};
use mcpg_backend_graphql::text::{
    begins_with, blank, characters, equals_ignoring_ascii_case, holds, joined, white_space,
};
use mcpg_backend_graphql::GraphqlBackendPlugin;

fn text(s: &str) -> Json {
    Json::Text(s.to_owned())
}

fn object(members: Vec<(&str, Json)>) -> Json {
    Json::Object(members.into_iter().map(|(k, v)| (k.to_owned(), v)).collect())
}

fn fields(url: &str, operation: &str) -> GraphqlBackendSpecFields {
    GraphqlBackendSpecFields {
        url: url.to_owned(),
        operation: operation.to_owned(),
        headers: None,
        timeout_ms: None,
        max_response_bytes: None,
        allow_private_backends: None,
    }
}

fn plan(url: &str, operation: &str) -> RegistrationPlan {
    plan_registration(Ok(fields(url, operation)), &Json::Null).expect("a good spec")
}

fn refusal(fields: GraphqlBackendSpecFields) -> String {
    match plan_registration(Ok(fields), &Json::Null) {
        Err(BackendError::InvalidSpec { message }) => message,
        other => panic!("expected a refusal, got {:?}", other),
    }
}

fn headers(pairs: &[(&str, &str)]) -> Vec<(String, String)> {
    pairs.iter().map(|(k, v)| (k.to_string(), v.to_string())).collect()
}

fn request(payload: &[u8], pairs: &[(&str, &str)]) -> BackendRequest {
    BackendRequest {
        payload: payload.to_vec(),
        headers: headers(pairs),
        idempotency: None,
    }
}

fn downstream(kind: &str) -> DownstreamHttpError {
    DownstreamHttpError {
        kind: kind.to_owned(),
        code: "c".to_owned(),
        message: "m".to_owned(),
        retryable: true,
        retry_class: "r".to_owned(),
        retry_after_ms: Some(7),
        idempotency_hint: "i".to_owned(),
        caller_retry_decision: "d".to_owned(),
        retry_safety: "s".to_owned(),
        backoff_strategy: "b".to_owned(),
        minimum_backoff_ms: Some(9),
        suggested_action: "a".to_owned(),
        status_code: None,
        details: Json::Null,
    }
}

fn summary(status_code: u16, body: &str) -> HttpResponseSummary {
    HttpResponseSummary {
        status_code,
        content_type: None,
        retry_after_ms: None,
        body: body.to_owned(),
        body_truncated: true,
        duration_ms: 12,
    }
}

// Text.

#[test]
fn white_space_is_the_unicode_property() {
    for code in 0..=0x10ffffu32 {
        if let Some(c) = char::from_u32(code) {
            assert_eq!(white_space(c), c.is_whitespace(), "U+{:04X}", code);
        }
    }
}

#[test]
fn blank_is_empty_after_trimming() {
    for s in ["", " ", "\t\r\n", "\u{3000}\u{a0}", " a ", "a", "\u{200b}"] {
        assert_eq!(blank(s), s.trim().is_empty(), "{:?}", s);
    }
}

#[test]
fn begins_with_and_holds_find_what_is_there() {
    assert!(begins_with("http://x", "http://"));
    assert!(!begins_with("http:/", "http://"));
    assert!(!begins_with(" http://x", "http://"));
    assert!(begins_with("x", ""));
    assert!(holds("https://a/?u=cred://b", "cred://"));
    assert!(holds("cred://", "cred://"));
    assert!(holds("ccred://", "cred://"));
    assert!(!holds("cred:/", "cred://"));
    assert!(!holds("cred:/x/", "cred://"));
    assert!(holds("", ""));
}

#[test]
fn ascii_case_is_ignored_and_no_other() {
    assert!(equals_ignoring_ascii_case("TraceParent", "traceparent"));
    assert!(!equals_ignoring_ascii_case("traceparent ", "traceparent"));
    assert!(!equals_ignoring_ascii_case("\u{c9}", "\u{e9}"));
    assert!(!equals_ignoring_ascii_case("@[", "`{"));
    assert!("\u{c9}".eq_ignore_ascii_case("\u{c9}"));
    assert!(equals_ignoring_ascii_case("\u{c9}", "\u{c9}"));
}

#[test]
fn characters_and_joined_keep_every_character() {
    assert_eq!(characters("a\u{e9}\u{1f600}"), vec!['a', '\u{e9}', '\u{1f600}']);
    assert_eq!(joined("ab", "\u{e9}c"), "ab\u{e9}c");
}

// JSON.

#[test]
fn text_is_read_as_json() {
    let json = parse_text(r#"{"a":[null,true,1,-2,2.5,"s"],"b":{}}"#).expect("JSON");
    let items = json.get("a").unwrap().as_array().unwrap();
    assert_eq!(items[0], Json::Null);
    assert_eq!(items[1], Json::Bool(true));
    assert_eq!(items[2], Json::Unsigned(1));
    assert_eq!(items[3], Json::Signed(-2));
    assert_eq!(items[4], Json::Number(serde_json::Number::from_f64(2.5).unwrap()));
    assert_eq!(items[5].as_str(), Some("s"));
    assert_eq!(json.get("b"), Some(&Json::Object(vec![])));
    assert_eq!(json.get("c"), None);
    assert_eq!(items[0].get("a"), None);
    assert_eq!(json.as_array(), None);
    assert_eq!(json.as_str(), None);
}

#[test]
fn text_that_is_not_json_is_refused() {
    assert_eq!(parse_text("<html>"), None);
    assert_eq!(parse_text(""), None);
    assert_eq!(parse_text("{} {}"), None);
}

#[test]
fn integers_keep_their_value_to_the_limits() {
    assert_eq!(parse_text("18446744073709551615"), Some(Json::Unsigned(u64::MAX)));
    assert_eq!(parse_text("-9223372036854775808"), Some(Json::Signed(i64::MIN)));
    assert_eq!(parse_text("0"), Some(Json::Unsigned(0)));
}

#[test]
fn bytes_are_read_with_the_reason_for_a_refusal() {
    assert_eq!(parse_bytes(b"[1]"), Ok(Json::Array(vec![Json::Unsigned(1)])));
    assert_eq!(
        parse_bytes(b"{"),
        Err("EOF while parsing an object at line 1 column 1".to_owned())
    );
}

#[test]
fn last_member_of_a_name_counts() {
    let json = object(vec![("a", Json::Unsigned(1)), ("b", Json::Null), ("a", Json::Unsigned(2))]);
    assert_eq!(json.get("a"), Some(&Json::Unsigned(2)));
    assert_eq!(render_bytes(&json).unwrap(), br#"{"a":2,"b":null}"#.to_vec());
}

#[test]
fn values_convert_there_and_back() {
    let source = r#"{"z":[{"k":[1,-1,0.5,"t",null,false]},[]],"a":{"b":{"c":18446744073709551615}}}"#;
    let value: serde_json::Value = serde_json::from_str(source).unwrap();
    let json = json_from_value(&value);
    assert_eq!(json_to_value(&json), value);
    assert_eq!(json_to_value(&json.clone()), value);
    assert_eq!(
        json_to_value(&Json::Signed(-3)),
        serde_json::Value::from(-3)
    );
    assert_eq!(json_to_value(&Json::Signed(3)), serde_json::Value::from(3));
}

#[test]
fn rendering_is_that_of_serde_json() {
    let json = object(vec![("b", text("\"\n")), ("a", Json::Number(serde_json::Number::from_f64(1.5).unwrap()))]);
    assert_eq!(
        render_bytes(&json).unwrap(),
        serde_json::to_vec(&json_to_value(&json)).unwrap()
    );
    assert_eq!(render_bytes(&json).unwrap(), br#"{"a":1.5,"b":"\"\n"}"#.to_vec());
}

// Binding specs.

#[test]
fn defaults_fill_what_was_left_out() {
    assert_eq!(default_timeout_ms(), 2_000);
    assert_eq!(default_max_response_bytes(), 65_536);
    let spec = GraphqlBackendSpec::from_fields(fields("https://g", "query { a }"));
    assert_eq!(spec.timeout_ms, 2_000);
    assert_eq!(spec.max_response_bytes, 65_536);
    assert!(!spec.allow_private_backends);
    assert!(spec.headers.is_empty());
}

#[test]
fn written_fields_are_kept() {
    let mut written = fields("http://g", "query { a }");
    written.headers = Some(BTreeMap::from([("x-a".to_owned(), "1".to_owned())]));
    written.timeout_ms = Some(5);
    written.max_response_bytes = Some(6);
    written.allow_private_backends = Some(true);
    let plan = plan_registration(Ok(written), &Json::Null).unwrap();
    assert_eq!(
        *plan.request(),
        HttpRequestProfile {
            url: "http://g".to_owned(),
            method: HttpBackendMethod::Post,
            headers: BTreeMap::from([("x-a".to_owned(), "1".to_owned())]),
            expected_status_codes: vec![200],
            require_json_response: true,
            max_response_bytes: 6,
            timeout_ms: 5,
            allow_private_backends: true,
        }
    );
    assert_eq!(plan.operation(), "query { a }");
}

#[test]
fn each_rule_has_its_message() {
    assert_eq!(refusal(fields(" \t", "q")), "url must not be empty");
    assert_eq!(
        refusal(fields("ftp://x", "q")),
        "url must start with http:// or https://, got 'ftp://x'"
    );
    assert_eq!(refusal(fields("https://g", "\n")), "operation must not be empty");
    let mut bad = fields("https://g", "q");
    bad.timeout_ms = Some(0);
    assert_eq!(refusal(bad), "timeout_ms must be greater than 0");
    let mut bad = fields("https://g", "q");
    bad.max_response_bytes = Some(0);
    assert_eq!(refusal(bad), "max_response_bytes must be greater than 0");
    assert_eq!(
        refusal(fields("https://g/cred://vault/token", "q")),
        "url must not contain a cred:// reference"
    );
}

#[test]
fn first_broken_rule_is_reported() {
    let mut bad = fields("cred://vault/url", " ");
    bad.timeout_ms = Some(0);
    assert_eq!(
        refusal(bad),
        "url must start with http:// or https://, got 'cred://vault/url'"
    );
    let mut bad = fields("https://cred://x", "");
    bad.max_response_bytes = Some(0);
    assert_eq!(refusal(bad), "operation must not be empty");
}

#[test]
fn unreadable_spec_is_refused_with_the_reason() {
    let result = plan_registration(Err("missing field `url`".to_owned()), &Json::Null);
    assert_eq!(
        result.unwrap_err(),
        BackendError::InvalidSpec {
            message: "GraphQL binding spec: missing field `url`".to_owned()
        }
    );
}

#[test]
fn secret_refs_are_the_listed_texts() {
    let document = object(vec![(
        "__mcpg_secret_refs",
        Json::Array(vec![text("cred://a"), Json::Unsigned(1), text("cred://b"), Json::Null]),
    )]);
    assert_eq!(secret_refs(&document), vec!["cred://a".to_owned(), "cred://b".to_owned()]);
    assert!(secret_refs(&object(vec![("__mcpg_secret_refs", text("cred://a"))])).is_empty());
    assert!(secret_refs(&object(vec![])).is_empty());
    assert!(secret_refs(&Json::Null).is_empty());
    let plan = plan_registration(Ok(fields("https://g", "q")), &document).unwrap();
    assert_eq!(plan.secret_refs().len(), 2);
}

// Registration.

#[test]
fn last_registration_of_a_name_counts() {
    let mut plugin: GraphqlBackendPlugin<u8> = GraphqlBackendPlugin::default();
    assert!(plugin.profile("a").is_none());
    plugin.complete_registration("a", plan("https://one", "q1"), Ok(1)).unwrap();
    plugin.complete_registration("b", plan("https://two", "q2"), Ok(2)).unwrap();
    plugin.complete_registration("a", plan("https://three", "q3"), Ok(3)).unwrap();
    let a = plugin.profile("a").unwrap();
    assert_eq!((a.net, a.operation.as_str(), a.request.url.as_str()), (3, "q3", "https://three"));
    let b = plugin.profile("b").unwrap();
    assert_eq!((b.net, b.operation.as_str(), b.request.url.as_str()), (2, "q2", "https://two"));
}

#[test]
fn failed_registration_changes_nothing() {
    let mut plugin: GraphqlBackendPlugin<u8> = GraphqlBackendPlugin::new();
    plugin.complete_registration("a", plan("https://one", "q1"), Ok(1)).unwrap();
    let err = plugin
        .complete_registration("a", plan("https://two", "q2"), Err("bad header".to_owned()))
        .unwrap_err();
    assert_eq!(
        err,
        BackendError::InvalidSpec { message: "GraphQL binding spec: bad header".to_owned() }
    );
    assert_eq!(plugin.profile("a").unwrap().operation, "q1");
}

#[test]
fn plugin_announces_itself() {
    let plugin: GraphqlBackendPlugin<()> = GraphqlBackendPlugin::new();
    assert_eq!(plugin.manifest().name, "GraphQL Binding");
    assert_eq!(plugin.manifest().class, PluginClass::Backend);
    assert_eq!(
        plugin.audit_metadata("any"),
        vec![("graphql.transport".to_owned(), text("plugin"))]
    );
}

// Calls.

#[test]
fn call_of_an_unknown_backend_is_refused() {
    let plugin: GraphqlBackendPlugin<()> = GraphqlBackendPlugin::new();
    assert_eq!(
        plugin.plan_execute("ghost", &request(b"not json", &[])).unwrap_err(),
        BackendError::ProfileNotFound { backend_name: "ghost".to_owned() }
    );
}

#[test]
fn payload_that_is_not_json_is_refused() {
    let mut plugin: GraphqlBackendPlugin<()> = GraphqlBackendPlugin::new();
    plugin.complete_registration("a", plan("https://g", "q"), Ok(())).unwrap();
    assert_eq!(
        plugin.plan_execute("a", &request(b"nope", &[])).unwrap_err(),
        BackendError::InvalidSpec {
            message: "GraphQL plugin payload is not valid JSON: expected ident at line 1 column 2"
                .to_owned()
        }
    );
}

#[test]
fn call_becomes_query_and_variables() {
    let mut plugin: GraphqlBackendPlugin<()> = GraphqlBackendPlugin::new();
    plugin
        .complete_registration("a", plan("https://g", "query($id: ID) { x }"), Ok(()))
        .unwrap();
    let mut call = request(
        br#"{"id":7}"#,
        &[
            ("MCPG-Tool-Name", "lookup"),
            ("mcpg-tool-name", "other"),
            ("TraceParent", "00-1"),
            ("x-other", "no"),
            ("tracestate", "k=v"),
        ],
    );
    call.idempotency = Some(IdempotencyHint { key: "once".to_owned() });
    let plan = plugin.plan_execute("a", &call).unwrap();
    assert_eq!(plan.tool_name, "lookup");
    assert_eq!(plan.backend_name, "a");
    assert_eq!(plan.profile_url, "https://g");
    assert_eq!(plan.operation, "query($id: ID) { x }");
    assert_eq!(plan.variables, object(vec![("id", Json::Unsigned(7))]));
    assert_eq!(
        render_bytes(&plan.graphql_body).unwrap(),
        br#"{"query":"query($id: ID) { x }","variables":{"id":7}}"#.to_vec()
    );
    assert_eq!(
        plan.trace_headers,
        headers(&[("TraceParent", "00-1"), ("tracestate", "k=v")])
    );
    assert_eq!(plan.idempotency_key, Some("once".to_owned()));
}

#[test]
fn empty_payload_is_a_call_without_variables() {
    assert_eq!(read_variables(&vec![]), Ok(Json::Object(vec![])));
    assert_eq!(
        graphql_body("q", Json::Object(vec![])),
        object(vec![("query", text("q")), ("variables", Json::Object(vec![]))])
    );
}

#[test]
fn backend_name_is_the_fallback_tool_name() {
    assert_eq!(tool_name("b", &headers(&[("tool-name", "x")])), "b");
    assert_eq!(tool_name("b", &headers(&[("Mcpg-TOOL-name", "x")])), "x");
    assert!(trace_headers(&headers(&[("traceparents", "x")])).is_empty());
}

#[test]
fn planned_call_takes_what_reading_the_payload_gave() {
    let profile = GraphqlProfile {
        net: (),
        request: HttpRequestProfile {
            url: "https://g".to_owned(),
            method: HttpBackendMethod::Post,
            headers: BTreeMap::new(),
            expected_status_codes: vec![200],
            require_json_response: true,
            max_response_bytes: 1,
            timeout_ms: 1,
            allow_private_backends: false,
        },
        operation: "q".to_owned(),
    };
    let call = request(b"", &[]);
    let plan = plan_call("b", &profile, &call, Ok(Json::Bool(true))).unwrap();
    assert_eq!(plan.graphql_body.get("variables"), Some(&Json::Bool(true)));
    assert_eq!(plan.idempotency_key, None);
    assert_eq!(
        plan_call("b", &profile, &call, Err("why".to_owned())).unwrap_err(),
        BackendError::InvalidSpec {
            message: "GraphQL plugin payload is not valid JSON: why".to_owned()
        }
    );
}

// Envelopes.

#[test]
fn errors_count_only_as_a_non_empty_array() {
    let errors = |v: Json| object(vec![("errors", v)]);
    assert!(has_graphql_errors(Some(&errors(Json::Array(vec![Json::Null])))));
    assert!(!has_graphql_errors(Some(&errors(Json::Array(vec![])))));
    assert!(!has_graphql_errors(Some(&errors(text("boom")))));
    assert!(!has_graphql_errors(Some(&errors(Json::Null))));
    assert!(!has_graphql_errors(Some(&object(vec![("data", Json::Null)]))));
    assert!(!has_graphql_errors(Some(&Json::Array(vec![Json::Null]))));
    assert!(!has_graphql_errors(None));
}

#[test]
fn graphql_errors_are_reported_as_they_came() {
    let errors = Json::Array(vec![object(vec![("message", text("boom"))])]);
    let error = graphql_errors_downstream_error(&errors);
    assert_eq!(error.kind, "graphql_errors");
    assert_eq!(error.code, "mcpg.downstream_graphql.errors");
    assert_eq!(error.message, "GraphQL response returned a non-empty `errors` array.");
    assert!(!error.retryable);
    assert_eq!(error.retry_class, "do_not_retry");
    assert_eq!(error.retry_after_ms, None);
    assert_eq!(error.idempotency_hint, "potentially_non_idempotent");
    assert_eq!(error.caller_retry_decision, "do_not_retry");
    assert_eq!(error.retry_safety, "do_not_retry");
    assert_eq!(error.backoff_strategy, "no_retry");
    assert_eq!(error.minimum_backoff_ms, None);
    assert_eq!(error.suggested_action, "inspect_graphql_errors");
    assert_eq!(error.status_code, Some(200));
    assert_eq!(error.details, object(vec![("errors", errors)]));
}

#[test]
fn status_error_comes_before_graphql_errors() {
    let response = object(vec![("errors", Json::Array(vec![text("boom")]))]);
    let both = select_downstream_error(Some(downstream("http_status")), Some(&response));
    assert_eq!(both, Some(downstream("http_status")));
    let body_only = select_downstream_error(None, Some(&response)).unwrap();
    assert_eq!(body_only.kind, "graphql_errors");
    assert_eq!(select_downstream_error(None, None), None);
}

#[test]
fn reply_envelope_carries_call_and_reply() {
    let draft = draft_reply_envelope(
        "tool",
        "backend",
        "https://g",
        "q",
        summary(200, "[]"),
        None,
        Some(Json::Array(vec![])),
    );
    assert_eq!(draft.downstream, None);
    assert_eq!(
        draft.finish(text("ignored")),
        object(vec![
            ("toolName", text("tool")),
            ("profile", text("backend")),
            ("url", text("https://g")),
            ("operation", text("q")),
            ("statusCode", Json::Unsigned(200)),
            ("durationMs", Json::Unsigned(12)),
            ("bodyTruncated", Json::Bool(true)),
            ("hasGraphqlErrors", Json::Bool(false)),
            ("body", text("[]")),
            ("response", Json::Array(vec![])),
            ("downstreamError", Json::Null),
        ])
    );
}

#[test]
fn reply_that_is_not_json_has_a_null_response() {
    let mut plugin: GraphqlBackendPlugin<()> = GraphqlBackendPlugin::new();
    plugin.complete_registration("a", plan("https://g", "q"), Ok(())).unwrap();
    let call = plugin.plan_execute("a", &request(b"", &[])).unwrap();
    let draft = call.draft_envelope(CallResult::Sent {
        resolved_url: "https://g/resolved".to_owned(),
        outcome: HttpOutcome::Replied {
            summary: summary(502, "<html>"),
            status_error: Some(downstream("http_status")),
        },
    });
    let envelope = draft.finish(text("encoded"));
    assert_eq!(envelope.get("response"), Some(&Json::Null));
    assert_eq!(envelope.get("body"), Some(&text("<html>")));
    assert_eq!(envelope.get("url"), Some(&text("https://g/resolved")));
    assert_eq!(envelope.get("hasGraphqlErrors"), Some(&Json::Bool(false)));
    assert_eq!(envelope.get("downstreamError"), Some(&text("encoded")));
}

#[test]
fn unresolved_call_is_reported_under_the_profile_url() {
    let mut plugin: GraphqlBackendPlugin<()> = GraphqlBackendPlugin::new();
    plugin.complete_registration("a", plan("https://g", "q"), Ok(())).unwrap();
    let call = plugin.plan_execute("a", &request(b"", &[])).unwrap();
    let draft = call.draft_envelope(CallResult::Unresolved {
        error: "no credential".to_owned(),
        transport_error: downstream("transport"),
    });
    assert_eq!(draft.downstream, Some(downstream("transport")));
    assert_eq!(
        draft.finish(text("encoded")),
        object(vec![
            ("toolName", text("a")),
            ("profile", text("a")),
            ("url", text("https://g")),
            ("operation", text("q")),
            ("error", text("no credential")),
            ("downstreamError", text("encoded")),
        ])
    );
}

#[test]
fn failed_call_is_reported_under_the_resolved_url() {
    let mut plugin: GraphqlBackendPlugin<()> = GraphqlBackendPlugin::new();
    plugin.complete_registration("a", plan("https://g", "q"), Ok(())).unwrap();
    let call = plugin.plan_execute("a", &request(b"", &[])).unwrap();
    let draft = call.draft_envelope(CallResult::Sent {
        resolved_url: "https://r".to_owned(),
        outcome: HttpOutcome::Failed {
            error: "timed out".to_owned(),
            transport_error: downstream("transport"),
        },
    });
    let envelope = draft.finish(text("encoded"));
    assert_eq!(envelope.get("url"), Some(&text("https://r")));
    assert_eq!(envelope.get("error"), Some(&text("timed out")));
    assert_eq!(envelope.get("statusCode"), None);
    assert_eq!(envelope.get("downstreamError"), Some(&text("encoded")));
}

#[test]
fn envelope_is_written_as_the_payload() {
    let response = envelope_response(object(vec![("b", Json::Unsigned(1)), ("a", Json::Null)]));
    assert_eq!(response.payload, br#"{"a":null,"b":1}"#.to_vec());
    assert!(!response.truncated);
    assert_eq!(response_from_bytes(None).payload, b"{}".to_vec());
    assert_eq!(response_from_bytes(Some(vec![1])).payload, vec![1]);
}

#[test]
fn payload_reads_back_as_the_envelope() {
    let draft = draft_reply_envelope(
        "tool \u{e9}\n",
        "backend",
        "https://g",
        "query { a(s: \"\\\\\") }",
        summary(500, "{}"),
        Some(downstream("http_status")),
        Some(object(vec![
            ("big", Json::Unsigned(u64::MAX)),
            ("small", Json::Signed(i64::MIN)),
            ("list", Json::Array(vec![Json::Null, Json::Bool(true), text("\u{1}\u{1f600}")])),
        ])),
    );
    let envelope = draft.finish(object(vec![("kind", text("http_status"))]));
    let response = envelope_response(envelope.clone());
    let read = parse_bytes(&response.payload).expect("the payload is JSON");
    assert_eq!(json_to_value(&read), json_to_value(&envelope));
    assert_eq!(read.get("downstreamError"), envelope.get("downstreamError"));
    let value: serde_json::Value = serde_json::from_slice(&response.payload).unwrap();
    assert_eq!(value, json_to_value(&envelope));
}

#[test]
fn nesting_is_read_back_to_the_depth_limit() {
    let nested = |levels: usize| {
        let mut json = Json::Unsigned(1);
        for level in 0..levels {
            json = if level % 2 == 0 {
                Json::Array(vec![json])
            } else {
                object(vec![("k", json)])
            };
        }
        json
    };
    let deepest = nested(127);
    assert_eq!(parse_bytes(&envelope_response(deepest.clone()).payload), Ok(deepest));
    assert!(parse_bytes(&envelope_response(nested(128)).payload).is_err());
}

#[test]
fn answer_is_the_finished_draft_as_payload() {
    let mut plugin: GraphqlBackendPlugin<()> = GraphqlBackendPlugin::new();
    plugin.complete_registration("a", plan("https://g", "q"), Ok(())).unwrap();
    let call = plugin.plan_execute("a", &request(b"", &[])).unwrap();
    let replied = |status_code: u16, body: &str, status_error: Option<DownstreamHttpError>| {
        CallResult::Sent {
            resolved_url: "https://r".to_owned(),
            outcome: HttpOutcome::Replied { summary: summary(status_code, body), status_error },
        }
    };
    let encoded = object(vec![("kind", text("k"))]);

    let response = call.answer(replied(500, "{}", Some(downstream("http_status"))), encoded.clone());
    assert_eq!(
        response.payload,
        br#"{"body":"{}","bodyTruncated":true,"downstreamError":{"kind":"k"},"durationMs":12,"hasGraphqlErrors":false,"operation":"q","profile":"a","response":{},"statusCode":500,"toolName":"a","url":"https://r"}"#
            .to_vec()
    );
    assert!(!response.truncated);

    let clean = call.answer(replied(200, "{\"data\":1}", None), encoded.clone());
    let read = parse_bytes(&clean.payload).expect("the payload is JSON");
    assert_eq!(read.get("downstreamError"), Some(&Json::Null));
    assert_eq!(read.get("response"), Some(&object(vec![("data", Json::Unsigned(1))])));

    let unresolved = call.answer(
        CallResult::Unresolved {
            error: "no credential".to_owned(),
            transport_error: downstream("transport"),
        },
        encoded.clone(),
    );
    assert_eq!(
        unresolved.payload,
        br#"{"downstreamError":{"kind":"k"},"error":"no credential","operation":"q","profile":"a","toolName":"a","url":"https://g"}"#
            .to_vec()
    );
}

#[test]
fn fractions_in_a_reply_leave_the_other_members_as_they_were() {
    let mut plugin: GraphqlBackendPlugin<()> = GraphqlBackendPlugin::new();
    plugin.complete_registration("a", plan("https://g", "q"), Ok(())).unwrap();
    let call = plugin.plan_execute("a", &request(b"", &[])).unwrap();
    let replied = |body: &str| CallResult::Sent {
        resolved_url: "https://r".to_owned(),
        outcome: HttpOutcome::Replied { summary: summary(200, body), status_error: None },
    };
    let encoded = object(vec![("kind", text("graphql_errors"))]);
    let numbers = "[2.5,1.0,-0.0,1e300,5e-324,0.1,1e21,123456789012345680000]";
    let failing = format!("{{\"data\":{},\"errors\":[{{\"line\":1}}]}}", numbers);
    let clean = format!("{{\"data\":{}}}", numbers);

    let response = call.answer(replied(&failing), encoded.clone());
    let read = parse_bytes(&response.payload).expect("the payload is JSON");
    assert_eq!(read.get("downstreamError"), Some(&encoded));
    assert_eq!(read.get("hasGraphqlErrors"), Some(&Json::Bool(true)));
    assert_eq!(read.get("body"), Some(&text(&failing)));
    assert_eq!(read.get("statusCode"), Some(&Json::Unsigned(200)));
    let reply = read.get("response").expect("the reply is JSON");
    assert_eq!(
        reply.get("errors"),
        Some(&Json::Array(vec![object(vec![("line", Json::Unsigned(1))])]))
    );
    let data = reply.get("data").and_then(|data| data.as_array()).expect("an array");
    assert_eq!(data.len(), 8);
    assert!(data.iter().all(|number| matches!(number, Json::Number(_))));

    let response = call.answer(replied(&clean), encoded);
    let read = parse_bytes(&response.payload).expect("the payload is JSON");
    assert_eq!(read.get("downstreamError"), Some(&Json::Null));
}
