//! The structured answer to a tool call, and the error that it reports.

use vstd::prelude::*;

use crate::codec::{carries, contents_bytes, parse_text, render_bytes, text_contents};
use crate::json::{members_view, option_view, put, Json, JsonMembers, JsonView};
use crate::protocol::{
    option_downstream, BackendResponse, DownstreamHttpError, DownstreamHttpErrorView,
    HttpResponseSummary,
};

verus! {

/// The elements of the `errors` array of a GraphQL response, where it has one.
pub open spec fn graphql_errors_of(response: Option<JsonView>) -> Option<Seq<JsonView>> {
    match response {
        Some(json) => match json.member("errors"@) {
            Some(errors) => errors.elements(),
            None => None,
        },
        None => None,
    }
}

/// A GraphQL response that carries a non-empty `errors` array.
pub open spec fn reports_graphql_errors(response: Option<JsonView>) -> bool {
    match graphql_errors_of(response) {
        Some(errors) => errors.len() > 0,
        None => false,
    }
}

/// Whether a parsed GraphQL response carries a non-empty `errors` array.
pub fn has_graphql_errors(response_json: Option<&Json>) -> (r: bool)
    ensures
        r == reports_graphql_errors(
            match response_json {
                Some(json) => Some(json@),
                None => None,
            },
        ),
{
    match response_json {
        Some(json) => match json.get("errors") {
            Some(errors) => match errors.as_array() {
                Some(items) => !items.is_empty(),
                None => false,
            },
            None => false,
        },
        None => false,
    }
}

/// The error of a response that came with status 200 and carries `errors`: one
/// for the caller to look into, not to retry.
pub open spec fn graphql_errors_view(errors: JsonView) -> DownstreamHttpErrorView {
    DownstreamHttpErrorView {
        kind: "graphql_errors"@,
        code: "mcpg.downstream_graphql.errors"@,
        message: "GraphQL response returned a non-empty `errors` array."@,
        retryable: false,
        retry_class: "do_not_retry"@,
        retry_after_ms: None,
        idempotency_hint: "potentially_non_idempotent"@,
        caller_retry_decision: "do_not_retry"@,
        retry_safety: "do_not_retry"@,
        backoff_strategy: "no_retry"@,
        minimum_backoff_ms: None,
        suggested_action: "inspect_graphql_errors"@,
        status_code: Some(200),
        details: JsonView::Object(JsonMembers::empty().insert("errors"@, errors)),
    }
}

/// The downstream error for a response that came with status 200 but carries a
/// non-empty `errors` array.
pub fn graphql_errors_downstream_error(errors: &Json) -> (r: DownstreamHttpError)
    ensures
        r@ == graphql_errors_view(errors@),
{
    let mut details: Vec<(String, Json)> = Vec::new();
    put(&mut details, "errors", errors.clone());
    DownstreamHttpError {
        kind: "graphql_errors".to_owned(),
        code: "mcpg.downstream_graphql.errors".to_owned(),
        message: "GraphQL response returned a non-empty `errors` array.".to_owned(),
        retryable: false,
        retry_class: "do_not_retry".to_owned(),
        retry_after_ms: None,
        idempotency_hint: "potentially_non_idempotent".to_owned(),
        caller_retry_decision: "do_not_retry".to_owned(),
        retry_safety: "do_not_retry".to_owned(),
        backoff_strategy: "no_retry".to_owned(),
        minimum_backoff_ms: None,
        suggested_action: "inspect_graphql_errors".to_owned(),
        status_code: Some(200),
        details: Json::Object(details),
    }
}

/// How the HTTP call went.
#[derive(Debug)]
pub enum HttpOutcome {
    /// A reply came. `status_error` is what the network core makes of its
    /// status: an error for one that is not expected, else `None`. That it is
    /// there for every other status than 200 rests on the network core; the
    /// status itself is not looked at again.
    Replied { summary: HttpResponseSummary, status_error: Option<DownstreamHttpError> },
    /// No reply came. `transport_error` is what the network core makes of the
    /// failure.
    Failed { error: String, transport_error: DownstreamHttpError },
}

/// The downstream error that a reply stands for: that of its status before that
/// of the `errors` in its body.
pub open spec fn reply_error(
    status_error: Option<DownstreamHttpErrorView>,
    response: Option<JsonView>,
) -> Option<DownstreamHttpErrorView> {
    match status_error {
        Some(e) => Some(e),
        None => if reports_graphql_errors(response) {
            Some(graphql_errors_view(response->0.member("errors"@)->0))
        } else {
            None
        },
    }
}

/// The downstream error that a reply stands for, or `None` for a clean one.
pub fn select_downstream_error(
    status_error: Option<DownstreamHttpError>,
    response_json: Option<&Json>,
) -> (r: Option<DownstreamHttpError>)
    ensures
        option_downstream(r) == reply_error(
            option_downstream(status_error),
            match response_json {
                Some(json) => Some(json@),
                None => None,
            },
        ),
{
    if status_error.is_some() {
        return status_error;
    }
    if !has_graphql_errors(response_json) {
        return None;
    }
    match response_json {
        Some(json) => match json.get("errors") {
            Some(errors) => Some(graphql_errors_downstream_error(errors)),
            None => None,
        },
        None => None,
    }
}

/// An envelope that waits for its `downstreamError`: the other members, and the
/// error to report.
#[derive(Debug)]
pub struct EnvelopeDraft {
    pub members: Vec<(String, Json)>,
    pub downstream: Option<DownstreamHttpError>,
}

pub struct EnvelopeDraftView {
    pub members: JsonMembers,
    pub downstream: Option<DownstreamHttpErrorView>,
}

impl View for EnvelopeDraft {
    type V = EnvelopeDraftView;

    open spec fn view(&self) -> EnvelopeDraftView {
        EnvelopeDraftView {
            members: members_view(self.members@),
            downstream: option_downstream(self.downstream),
        }
    }
}

/// The members that every envelope has.
pub open spec fn common_members(
    tool_name: Seq<char>,
    backend_name: Seq<char>,
    url: Seq<char>,
    operation: Seq<char>,
) -> JsonMembers {
    JsonMembers::empty().insert("toolName"@, JsonView::Text(tool_name)).insert(
        "profile"@,
        JsonView::Text(backend_name),
    ).insert("url"@, JsonView::Text(url)).insert("operation"@, JsonView::Text(operation))
}

/// The members that a reply adds.
pub open spec fn reply_members(
    common: JsonMembers,
    summary: HttpResponseSummary,
    response: Option<JsonView>,
) -> JsonMembers {
    common.insert("statusCode"@, JsonView::Integer(summary.status_code as int)).insert(
        "durationMs"@,
        JsonView::Integer(summary.duration_ms as int),
    ).insert("bodyTruncated"@, JsonView::Bool(summary.body_truncated)).insert(
        "hasGraphqlErrors"@,
        JsonView::Bool(reports_graphql_errors(response)),
    ).insert("body"@, JsonView::Text(summary.body@)).insert(
        "response"@,
        match response {
            Some(json) => json,
            None => JsonView::Null,
        },
    )
}

/// The draft for a reply whose body reads as `response`.
pub open spec fn reply_draft(
    common: JsonMembers,
    summary: HttpResponseSummary,
    status_error: Option<DownstreamHttpErrorView>,
    response: Option<JsonView>,
) -> EnvelopeDraftView {
    EnvelopeDraftView {
        members: reply_members(common, summary, response),
        downstream: reply_error(status_error, response),
    }
}

/// The draft for a call that got no reply.
pub open spec fn failure_draft(
    common: JsonMembers,
    error: Seq<char>,
    transport_error: DownstreamHttpErrorView,
) -> EnvelopeDraftView {
    EnvelopeDraftView {
        members: common.insert("error"@, JsonView::Text(error)),
        downstream: Some(transport_error),
    }
}

/// The draft for either way a call can go.
pub open spec fn outcome_draft(common: JsonMembers, outcome: HttpOutcome) -> EnvelopeDraftView {
    match outcome {
        HttpOutcome::Replied { summary, status_error } => reply_draft(
            common,
            summary,
            option_downstream(status_error),
            text_contents(summary.body@),
        ),
        HttpOutcome::Failed { error, transport_error } => failure_draft(
            common,
            error@,
            transport_error@,
        ),
    }
}

/// The status of a reply has been checked: there is a status error exactly when
/// the status is not 200.
pub open spec fn status_checked(outcome: HttpOutcome) -> bool {
    match outcome {
        HttpOutcome::Replied { summary, status_error } => status_error is Some
            <==> summary.status_code != 200,
        HttpOutcome::Failed { .. } => true,
    }
}

/// A reply under status 200 whose body carries no GraphQL errors.
pub open spec fn is_clean(outcome: HttpOutcome) -> bool {
    match outcome {
        HttpOutcome::Replied { summary, .. } => summary.status_code == 200
            && !reports_graphql_errors(text_contents(summary.body@)),
        HttpOutcome::Failed { .. } => false,
    }
}

fn put_common(
    tool_name: &str,
    backend_name: &str,
    url: &str,
    operation: &str,
) -> (members: Vec<(String, Json)>)
    ensures
        members_view(members@) == common_members(tool_name@, backend_name@, url@, operation@),
{
    let mut members: Vec<(String, Json)> = Vec::new();
    put(&mut members, "toolName", Json::from_text(tool_name));
    put(&mut members, "profile", Json::from_text(backend_name));
    put(&mut members, "url", Json::from_text(url));
    put(&mut members, "operation", Json::from_text(operation));
    members
}

/// Drafts the envelope of a reply whose body has been read: `response_json` is
/// the body as JSON, or `None` where it is not JSON.
pub fn draft_reply_envelope(
    tool_name: &str,
    backend_name: &str,
    url: &str,
    operation: &str,
    summary: HttpResponseSummary,
    status_error: Option<DownstreamHttpError>,
    response_json: Option<Json>,
) -> (draft: EnvelopeDraft)
    ensures
        draft@ == reply_draft(
            common_members(tool_name@, backend_name@, url@, operation@),
            summary,
            option_downstream(status_error),
            option_view(response_json),
        ),
{
    let graphql_errors = has_graphql_errors(response_json.as_ref());
    let downstream = select_downstream_error(status_error, response_json.as_ref());
    let mut members = put_common(tool_name, backend_name, url, operation);
    put(&mut members, "statusCode", Json::Unsigned(summary.status_code as u64));
    put(&mut members, "durationMs", Json::Unsigned(summary.duration_ms));
    put(&mut members, "bodyTruncated", Json::Bool(summary.body_truncated));
    put(&mut members, "hasGraphqlErrors", Json::Bool(graphql_errors));
    put(&mut members, "body", Json::Text(summary.body));
    put(
        &mut members,
        "response",
        match response_json {
            Some(json) => json,
            None => Json::Null,
        },
    );
    EnvelopeDraft { members, downstream }
}

/// Drafts the envelope of a call: the fields that GraphQL adds, and the
/// downstream error that the gateway reads.
pub fn build_graphql_envelope(
    tool_name: &str,
    backend_name: &str,
    url: &str,
    operation: &str,
    outcome: HttpOutcome,
) -> (draft: EnvelopeDraft)
    ensures
        draft@ == outcome_draft(
            common_members(tool_name@, backend_name@, url@, operation@),
            outcome,
        ),
{
    match outcome {
        HttpOutcome::Replied { summary, status_error } => {
            let response_json = parse_text(summary.body.as_str());
            draft_reply_envelope(
                tool_name,
                backend_name,
                url,
                operation,
                summary,
                status_error,
                response_json,
            )
        },
        HttpOutcome::Failed { error, transport_error } => {
            let mut members = put_common(tool_name, backend_name, url, operation);
            put(&mut members, "error", Json::Text(error));
            EnvelopeDraft { members, downstream: Some(transport_error) }
        },
    }
}

impl EnvelopeDraftView {
    /// The envelope, once the error to report has been written as `encoded`.
    pub open spec fn finished(self, encoded: JsonView) -> JsonView {
        JsonView::Object(
            self.members.insert(
                "downstreamError"@,
                if self.downstream is Some {
                    encoded
                } else {
                    JsonView::Null
                },
            ),
        )
    }
}

impl EnvelopeDraft {
    /// Puts in the `downstreamError`: `encoded`, which is the error to report as
    /// JSON, or `null` where there is none to report.
    pub fn finish(self, encoded: Json) -> (envelope: Json)
        ensures
            envelope@ == self@.finished(encoded@),
    {
        let mut members = self.members;
        put(
            &mut members,
            "downstreamError",
            match self.downstream {
                Some(_) => encoded,
                None => Json::Null,
            },
        );
        Json::Object(members)
    }

    /// The response that carries the finished envelope.
    pub fn respond(self, encoded: Json) -> (r: BackendResponse)
        ensures
            r.payload@ == contents_bytes(self@.finished(encoded@)),
            carries(r.payload@, self@.finished(encoded@)),
            !r.truncated,
    {
        envelope_response(self.finish(encoded))
    }
}

/// The payload for an envelope that was written as `bytes`; the two bytes of
/// `{}` where writing it failed.
pub open spec fn payload_of(bytes: Option<Seq<u8>>) -> Seq<u8> {
    match bytes {
        Some(bytes) => bytes,
        None => seq![0x7bu8, 0x7du8],
    }
}

/// The response that carries an envelope written as `bytes`.
pub fn response_from_bytes(bytes: Option<Vec<u8>>) -> (r: BackendResponse)
    ensures
        r.payload@ == payload_of(
            match bytes {
                Some(bytes) => Some(bytes@),
                None => None,
            },
        ),
        !r.truncated,
{
    let payload = match bytes {
        Some(bytes) => bytes,
        None => {
            let mut empty: Vec<u8> = Vec::new();
            empty.push(0x7b);
            empty.push(0x7d);
            assert(empty@ =~= seq![0x7bu8, 0x7du8]);
            empty
        },
    };
    BackendResponse { payload, truncated: false }
}

/// Writes an envelope as the payload of a response. The payload carries the
/// envelope to the gateway.
pub fn envelope_response(envelope: Json) -> (r: BackendResponse)
    ensures
        r.payload@ == contents_bytes(envelope@),
        carries(r.payload@, envelope@),
        !r.truncated,
{
    response_from_bytes(render_bytes(&envelope))
}

} // verus!
