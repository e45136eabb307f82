//! The binding as the gateway sees it.

use std::time::Duration;

use mcpg_backend_graphql::binding::{plan_registration, GraphqlBackendSpecFields};
use mcpg_backend_graphql::envelope::{build_graphql_envelope, HttpOutcome};
use mcpg_backend_graphql::json::Json;
use mcpg_backend_graphql::protocol::{BackendError, DownstreamHttpError, HttpResponseSummary};
use mcpg_backend_graphql::GraphqlBackendPlugin;

fn plugin() -> GraphqlBackendPlugin<()> {
    GraphqlBackendPlugin::new()
}

fn fields(url: &str, operation: &str) -> GraphqlBackendSpecFields {
    GraphqlBackendSpecFields {
        url: url.to_owned(),
        operation: operation.to_owned(),
        headers: None,
        timeout_ms: None,
        max_response_bytes: None,
        allow_private_backends: None,
    }
}

fn register_profile(
    plugin: &mut GraphqlBackendPlugin<()>,
    backend_name: &str,
    fields: GraphqlBackendSpecFields,
) -> Result<(), BackendError> {
    let document = Json::Object(vec![
        ("url".to_owned(), Json::Text(fields.url.clone())),
        ("operation".to_owned(), Json::Text(fields.operation.clone())),
    ]);
    let plan = plan_registration(Ok(fields), &document)?;
    plugin.complete_registration(backend_name, plan, Ok(()))
}

fn summary(status: u16, body: &str) -> HttpResponseSummary {
    HttpResponseSummary {
        status_code: status,
        content_type: Some("application/json".to_owned()),
        retry_after_ms: None,
        body: body.to_owned(),
        body_truncated: false,
        duration_ms: 1,
    }
}

fn status_error(status: u16) -> DownstreamHttpError {
    DownstreamHttpError {
        kind: "http_status".to_owned(),
        code: "status".to_owned(),
        message: "unexpected status".to_owned(),
        retryable: true,
        retry_class: "retry".to_owned(),
        retry_after_ms: None,
        idempotency_hint: "potentially_non_idempotent".to_owned(),
        caller_retry_decision: "inspect".to_owned(),
        retry_safety: "unsafe".to_owned(),
        backoff_strategy: "exponential".to_owned(),
        minimum_backoff_ms: Some(100),
        suggested_action: "inspect".to_owned(),
        status_code: Some(status),
        details: Json::Null,
    }
}

fn encode(error: &DownstreamHttpError) -> Json {
    Json::Object(vec![
        ("kind".to_owned(), Json::Text(error.kind.clone())),
        ("code".to_owned(), Json::Text(error.code.clone())),
        ("details".to_owned(), error.details.clone()),
    ])
}

fn envelope(summary: HttpResponseSummary) -> Json {
    let status = summary.status_code;
    let draft = build_graphql_envelope(
        "t",
        "b",
        "https://api.test/graphql",
        "query { me { id } }",
        HttpOutcome::Replied {
            summary,
            status_error: if status == 200 { None } else { Some(status_error(status)) },
        },
    );
    let encoded = draft.downstream.as_ref().map(encode).unwrap_or(Json::Null);
    draft.finish(encoded)
}

#[test]
fn binding_plugin_kind_is_graphql() {
    assert_eq!(plugin().kind(), "graphql");
}

#[test]
fn manifest_advertises_first_party_id() {
    assert_eq!(plugin().manifest().id, "dev.mcpg.backend.graphql");
}

#[test]
fn envelope_200_no_errors_is_clean() {
    let env = envelope(summary(200, r#"{"data":{"me":{"id":"1"}}}"#));
    assert_eq!(env.get("hasGraphqlErrors"), Some(&Json::Bool(false)));
    assert!(env.get("downstreamError").unwrap().is_null());
    let id = env
        .get("response")
        .and_then(|v| v.get("data"))
        .and_then(|v| v.get("me"))
        .and_then(|v| v.get("id"))
        .and_then(|v| v.as_str());
    assert_eq!(id, Some("1"));
}

#[test]
fn envelope_200_with_errors_flags_downstream_error() {
    let env = envelope(summary(200, r#"{"errors":[{"message":"boom"}]}"#));
    assert_eq!(env.get("hasGraphqlErrors"), Some(&Json::Bool(true)));
    assert!(!env.get("downstreamError").unwrap().is_null());
    assert_eq!(
        env.get("downstreamError").unwrap().get("kind").unwrap().as_str(),
        Some("graphql_errors")
    );
}

#[test]
fn envelope_non_200_flags_downstream_error() {
    let env = envelope(summary(500, "{}"));
    assert!(!env.get("downstreamError").unwrap().is_null());
}

#[test]
fn register_rejects_empty_operation() {
    let mut plugin = plugin();
    let err = register_profile(&mut plugin, "test", fields("https://api.test/graphql", ""))
        .expect_err("should reject empty operation");
    assert!(matches!(err, BackendError::InvalidSpec { .. }));
}

#[test]
fn register_applies_default_timeout_and_size() {
    let mut plugin = plugin();
    register_profile(
        &mut plugin,
        "test",
        fields("https://api.test/graphql", "query { me { id } }"),
    )
    .expect("registers with defaults");
    let profile = plugin.profile("test").expect("profile stored");
    assert_eq!(
        Duration::from_millis(profile.request.timeout_ms),
        Duration::from_millis(2_000),
        "timeout_ms defaults to 2000 (gateway binding default)",
    );
    assert_eq!(
        profile.request.max_response_bytes, 65_536,
        "max_response_bytes defaults to 64 KiB",
    );
}

#[test]
fn register_rejects_non_http_url() {
    let mut plugin = plugin();
    let err = register_profile(
        &mut plugin,
        "test",
        fields("ftp://api.test/graphql", "query { me { id } }"),
    )
    .expect_err("should reject non-http url");
    assert!(matches!(err, BackendError::InvalidSpec { .. }));
}

#[test]
fn register_rejects_zero_timeout_and_size() {
    let mut plugin = plugin();
    let mut no_time = fields("https://g", "query { a }");
    no_time.timeout_ms = Some(0);
    let mut no_room = fields("https://g", "query { a }");
    no_room.max_response_bytes = Some(0);
    for bad in vec![no_time, no_room] {
        let err = register_profile(&mut plugin, "test", bad).expect_err("should reject zero value");
        assert!(matches!(err, BackendError::InvalidSpec { .. }));
    }
}

#[test]
fn register_rejects_cred_in_transport_only_field() {
    let mut plugin = plugin();
    let err = register_profile(
        &mut plugin,
        "test",
        fields("cred://vault/url", "query { me { id } }"),
    )
    .expect_err("should reject cred:// in transport-only field");
    assert!(matches!(err, BackendError::InvalidSpec { .. }));
}
