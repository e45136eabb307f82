//! What the gateway hands to the binding and takes back from it, as plain
//! values.

use std::collections::BTreeMap;

use vstd::prelude::*;

use crate::json::{Json, JsonView};

verus! {

/// Why a call of the binding is refused.
#[derive(Debug, PartialEq)]
pub enum BackendError {
    /// The binding spec, or the payload of a call, is not acceptable.
    InvalidSpec { message: String },
    /// No profile is registered under the name.
    ProfileNotFound { backend_name: String },
}

pub enum BackendErrorView {
    InvalidSpec { message: Seq<char> },
    ProfileNotFound { backend_name: Seq<char> },
}

impl View for BackendError {
    type V = BackendErrorView;

    open spec fn view(&self) -> BackendErrorView {
        match self {
            BackendError::InvalidSpec { message } => BackendErrorView::InvalidSpec {
                message: message@,
            },
            BackendError::ProfileNotFound { backend_name } => BackendErrorView::ProfileNotFound {
                backend_name: backend_name@,
            },
        }
    }
}

/// The class of plugin that a manifest announces.
#[derive(Debug, Clone, Copy, PartialEq, Eq, Structural)]
pub enum PluginClass {
    Backend,
}

/// How the plugin announces itself.
#[derive(Debug, PartialEq)]
pub struct PluginManifest {
    pub id: String,
    pub name: String,
    pub class: PluginClass,
}

/// What makes a call safe to repeat.
#[derive(Debug, PartialEq)]
pub struct IdempotencyHint {
    pub key: String,
}

/// A tool call: the arguments as JSON bytes, and the headers that came along.
#[derive(Debug, PartialEq)]
pub struct BackendRequest {
    pub payload: Vec<u8>,
    pub headers: Vec<(String, String)>,
    pub idempotency: Option<IdempotencyHint>,
}

/// A header: its name and its value.
pub type HeaderView = (Seq<char>, Seq<char>);

pub struct BackendRequestView {
    pub payload: Seq<u8>,
    pub headers: Seq<HeaderView>,
    pub idempotency_key: Option<Seq<char>>,
}

/// What a list of headers says.
pub open spec fn headers_view(headers: Seq<(String, String)>) -> Seq<HeaderView> {
    headers.map_values(|h: (String, String)| (h.0@, h.1@))
}

/// The characters of an optional string.
pub open spec fn option_text(s: Option<String>) -> Option<Seq<char>> {
    match s {
        Some(s) => Some(s@),
        None => None,
    }
}

impl View for BackendRequest {
    type V = BackendRequestView;

    open spec fn view(&self) -> BackendRequestView {
        BackendRequestView {
            payload: self.payload@,
            headers: headers_view(self.headers@),
            idempotency_key: match self.idempotency {
                Some(hint) => Some(hint.key@),
                None => None,
            },
        }
    }
}

/// The answer to a tool call.
#[derive(Debug, PartialEq)]
pub struct BackendResponse {
    pub payload: Vec<u8>,
    pub truncated: bool,
}

/// The HTTP methods that the binding sends.
#[derive(Debug, Clone, Copy, PartialEq, Eq, Structural)]
pub enum HttpBackendMethod {
    Post,
}

/// How a request is sent and what is expected of its reply.
#[derive(Debug, PartialEq)]
pub struct HttpRequestProfile {
    pub url: String,
    pub method: HttpBackendMethod,
    pub headers: BTreeMap<String, String>,
    pub expected_status_codes: Vec<u16>,
    pub require_json_response: bool,
    pub max_response_bytes: usize,
    pub timeout_ms: u64,
    pub allow_private_backends: bool,
}

pub struct HttpRequestProfileView {
    pub url: Seq<char>,
    pub method: HttpBackendMethod,
    pub headers: BTreeMap<String, String>,
    pub expected_status_codes: Seq<u16>,
    pub require_json_response: bool,
    pub max_response_bytes: usize,
    pub timeout_ms: u64,
    pub allow_private_backends: bool,
}

impl View for HttpRequestProfile {
    type V = HttpRequestProfileView;

    open spec fn view(&self) -> HttpRequestProfileView {
        HttpRequestProfileView {
            url: self.url@,
            method: self.method,
            headers: self.headers,
            expected_status_codes: self.expected_status_codes@,
            require_json_response: self.require_json_response,
            max_response_bytes: self.max_response_bytes,
            timeout_ms: self.timeout_ms,
            allow_private_backends: self.allow_private_backends,
        }
    }
}

/// What came back over HTTP.
#[derive(Debug, PartialEq)]
pub struct HttpResponseSummary {
    pub status_code: u16,
    pub content_type: Option<String>,
    pub retry_after_ms: Option<u64>,
    pub body: String,
    pub body_truncated: bool,
    pub duration_ms: u64,
}

/// An error of the downstream service, with what the caller may do about it.
#[derive(Debug, PartialEq)]
pub struct DownstreamHttpError {
    pub kind: String,
    pub code: String,
    pub message: String,
    pub retryable: bool,
    pub retry_class: String,
    pub retry_after_ms: Option<u64>,
    pub idempotency_hint: String,
    pub caller_retry_decision: String,
    pub retry_safety: String,
    pub backoff_strategy: String,
    pub minimum_backoff_ms: Option<u64>,
    pub suggested_action: String,
    pub status_code: Option<u16>,
    pub details: Json,
}

pub struct DownstreamHttpErrorView {
    pub kind: Seq<char>,
    pub code: Seq<char>,
    pub message: Seq<char>,
    pub retryable: bool,
    pub retry_class: Seq<char>,
    pub retry_after_ms: Option<u64>,
    pub idempotency_hint: Seq<char>,
    pub caller_retry_decision: Seq<char>,
    pub retry_safety: Seq<char>,
    pub backoff_strategy: Seq<char>,
    pub minimum_backoff_ms: Option<u64>,
    pub suggested_action: Seq<char>,
    pub status_code: Option<u16>,
    pub details: JsonView,
}

impl View for DownstreamHttpError {
    type V = DownstreamHttpErrorView;

    open spec fn view(&self) -> DownstreamHttpErrorView {
        DownstreamHttpErrorView {
            kind: self.kind@,
            code: self.code@,
            message: self.message@,
            retryable: self.retryable,
            retry_class: self.retry_class@,
            retry_after_ms: self.retry_after_ms,
            idempotency_hint: self.idempotency_hint@,
            caller_retry_decision: self.caller_retry_decision@,
            retry_safety: self.retry_safety@,
            backoff_strategy: self.backoff_strategy@,
            minimum_backoff_ms: self.minimum_backoff_ms,
            suggested_action: self.suggested_action@,
            status_code: self.status_code,
            details: self.details@,
        }
    }
}

/// What an optional downstream error says.
pub open spec fn option_downstream(e: Option<DownstreamHttpError>) -> Option<
    DownstreamHttpErrorView,
> {
    match e {
        Some(e) => Some(e@),
        None => None,
    }
}

} // verus!
