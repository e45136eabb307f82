//! What a tool call turns into: the GraphQL body, the headers that travel with
//! it, and the envelope that answers it.

use vstd::prelude::*;

use crate::codec::{
    bytes_contents, carries, contents_bytes, parse_bytes, read_depth, text_contents,
};
use crate::envelope::{
    build_graphql_envelope, common_members, failure_draft, is_clean, outcome_draft,
    status_checked, EnvelopeDraft, EnvelopeDraftView, HttpOutcome,
};
use crate::json::{members_view, put, Json, JsonMembers, JsonView};
use crate::laws::{
    law_answer_is_plain_where_its_parts_are, law_call_is_an_error_iff_not_clean,
    law_plain_members_are_read_back,
};
use crate::protocol::{
    headers_view, option_text, BackendError, BackendErrorView, BackendRequest, BackendRequestView,
    BackendResponse, DownstreamHttpError, HeaderView, HttpRequestProfile, HttpRequestProfileView,
};
use crate::text::{equals_ignoring_ascii_case, joined, same_ignoring_ascii_case};

verus! {

/// What is registered under a name: the network runtime, the request that it
/// sends, and the operation. The operation is fixed here; a call only supplies
/// its variables.
#[derive(Debug)]
pub struct GraphqlProfile<N> {
    pub net: N,
    pub request: HttpRequestProfile,
    pub operation: String,
}

pub struct GraphqlProfileView<N> {
    pub net: N,
    pub request: HttpRequestProfileView,
    pub operation: Seq<char>,
}

impl<N> View for GraphqlProfile<N> {
    type V = GraphqlProfileView<N>;

    open spec fn view(&self) -> GraphqlProfileView<N> {
        GraphqlProfileView {
            net: self.net,
            request: self.request@,
            operation: self.operation@,
        }
    }
}

/// The value of the first header of a name, ASCII case aside.
pub open spec fn first_header(headers: Seq<HeaderView>, name: Seq<char>) -> Option<Seq<char>>
    decreases headers.len(),
{
    if headers.len() == 0 {
        None
    } else if same_ignoring_ascii_case(headers.first().0, name) {
        Some(headers.first().1)
    } else {
        first_header(headers.drop_first(), name)
    }
}

/// The name that a call goes by: the one in its `mcpg-tool-name` header, or
/// that of the backend.
pub open spec fn tool_name_of(backend_name: Seq<char>, headers: Seq<HeaderView>) -> Seq<char> {
    match first_header(headers, "mcpg-tool-name"@) {
        Some(name) => name,
        None => backend_name,
    }
}

/// The name that a call goes by.
pub fn tool_name(backend_name: &str, headers: &Vec<(String, String)>) -> (r: String)
    ensures
        r@ == tool_name_of(backend_name@, headers_view(headers@)),
{
    let ghost views = headers_view(headers@);
    let mut i: usize = 0;
    assert(views.skip(0) =~= views);
    while i < headers.len()
        invariant
            i <= headers@.len(),
            views == headers_view(headers@),
            first_header(views, "mcpg-tool-name"@) == first_header(
                views.skip(i as int),
                "mcpg-tool-name"@,
            ),
        decreases headers@.len() - i,
    {
        let header = &headers[i];
        assert(views.skip(i as int).first() == (header.0@, header.1@));
        assert(views.skip(i as int).drop_first() =~= views.skip(i + 1));
        if equals_ignoring_ascii_case(header.0.as_str(), "mcpg-tool-name") {
            return header.1.clone();
        }
        i += 1;
    }
    backend_name.to_owned()
}

/// A header of the W3C trace context.
pub open spec fn is_trace_header(name: Seq<char>) -> bool {
    same_ignoring_ascii_case(name, "traceparent"@) || same_ignoring_ascii_case(
        name,
        "tracestate"@,
    )
}

/// The trace headers among headers, in order.
pub open spec fn trace_headers_of(headers: Seq<HeaderView>) -> Seq<HeaderView> {
    headers.filter(|h: HeaderView| is_trace_header(h.0))
}

/// The trace headers among headers.
pub fn trace_headers(headers: &Vec<(String, String)>) -> (r: Vec<(String, String)>)
    ensures
        headers_view(r@) == trace_headers_of(headers_view(headers@)),
{
    let ghost views = headers_view(headers@);
    let mut kept: Vec<(String, String)> = Vec::new();
    let mut i: usize = 0;
    proof {
        reveal(Seq::filter);
        assert(headers_view(kept@) =~= trace_headers_of(views.take(0)));
    }
    while i < headers.len()
        invariant
            i <= headers@.len(),
            views == headers_view(headers@),
            headers_view(kept@) == trace_headers_of(views.take(i as int)),
        decreases headers@.len() - i,
    {
        let ghost before = kept@;
        let header = &headers[i];
        proof {
            reveal(Seq::filter);
            assert(views.take(i + 1).drop_last() =~= views.take(i as int));
            assert(views.take(i + 1).last() == (header.0@, header.1@));
        }
        if equals_ignoring_ascii_case(header.0.as_str(), "traceparent")
            || equals_ignoring_ascii_case(header.0.as_str(), "tracestate") {
            kept.push((header.0.clone(), header.1.clone()));
            assert(headers_view(kept@) =~= headers_view(before).push((header.0@, header.1@)));
        }
        i += 1;
    }
    assert(views.take(i as int) =~= views);
    kept
}

/// The variables that a payload stands for: an empty payload is a call without
/// arguments.
pub open spec fn variables_of(payload: Seq<u8>) -> Result<JsonView, Seq<char>> {
    if payload.len() == 0 {
        Ok(JsonView::Object(JsonMembers::empty()))
    } else {
        bytes_contents(payload)
    }
}

/// Reads the variables of a call from its payload; the error says why the
/// payload is not JSON.
pub fn read_variables(payload: &Vec<u8>) -> (r: Result<Json, String>)
    ensures
        match r {
            Ok(json) => variables_of(payload@) == Ok::<JsonView, Seq<char>>(json@),
            Err(message) => variables_of(payload@) == Err::<JsonView, Seq<char>>(message@),
        },
{
    if payload.is_empty() {
        let members: Vec<(String, Json)> = Vec::new();
        assert(members_view(members@) =~= JsonMembers::empty());
        Ok(Json::Object(members))
    } else {
        parse_bytes(payload.as_slice())
    }
}

/// The body of a GraphQL request over HTTP.
pub open spec fn graphql_body_of(operation: Seq<char>, variables: JsonView) -> JsonView {
    JsonView::Object(
        JsonMembers::empty().insert("query"@, JsonView::Text(operation)).insert(
            "variables"@,
            variables,
        ),
    )
}

/// The body of a GraphQL request: the operation as the query, and the variables.
pub fn graphql_body(operation: &str, variables: Json) -> (body: Json)
    ensures
        body@ == graphql_body_of(operation@, variables@),
{
    let mut members: Vec<(String, Json)> = Vec::new();
    put(&mut members, "query", Json::from_text(operation));
    put(&mut members, "variables", variables);
    Json::Object(members)
}

/// A call that is ready to be sent.
#[derive(Debug)]
pub struct ExecutionPlan {
    pub tool_name: String,
    pub backend_name: String,
    pub profile_url: String,
    pub operation: String,
    pub variables: Json,
    pub graphql_body: Json,
    pub trace_headers: Vec<(String, String)>,
    pub idempotency_key: Option<String>,
}

pub struct ExecutionPlanView {
    pub tool_name: Seq<char>,
    pub backend_name: Seq<char>,
    pub profile_url: Seq<char>,
    pub operation: Seq<char>,
    pub variables: JsonView,
    pub graphql_body: JsonView,
    pub trace_headers: Seq<HeaderView>,
    pub idempotency_key: Option<Seq<char>>,
}

impl View for ExecutionPlan {
    type V = ExecutionPlanView;

    open spec fn view(&self) -> ExecutionPlanView {
        ExecutionPlanView {
            tool_name: self.tool_name@,
            backend_name: self.backend_name@,
            profile_url: self.profile_url@,
            operation: self.operation@,
            variables: self.variables@,
            graphql_body: self.graphql_body@,
            trace_headers: headers_view(self.trace_headers@),
            idempotency_key: option_text(self.idempotency_key),
        }
    }
}

/// What a call turns into under a profile, once its variables are known.
pub open spec fn execution_of<N>(
    backend_name: Seq<char>,
    profile: GraphqlProfileView<N>,
    request: BackendRequestView,
    variables: JsonView,
) -> ExecutionPlanView {
    ExecutionPlanView {
        tool_name: tool_name_of(backend_name, request.headers),
        backend_name,
        profile_url: profile.request.url,
        operation: profile.operation,
        variables,
        graphql_body: graphql_body_of(profile.operation, variables),
        trace_headers: trace_headers_of(request.headers),
        idempotency_key: request.idempotency_key,
    }
}

/// The refusal of a payload that is not JSON.
pub open spec fn payload_refusal(message: Seq<char>) -> BackendErrorView {
    BackendErrorView::InvalidSpec {
        message: "GraphQL plugin payload is not valid JSON: "@ + message,
    }
}

/// Plans a call under a profile. `variables` is what reading the payload gave.
pub fn plan_call<N>(
    backend_name: &str,
    profile: &GraphqlProfile<N>,
    request: &BackendRequest,
    variables: Result<Json, String>,
) -> (r: Result<ExecutionPlan, BackendError>)
    ensures
        match (variables, r) {
            (Ok(json), Ok(plan)) => plan@ == execution_of(
                backend_name@,
                profile@,
                request@,
                json@,
            ),
            (Err(message), Err(e)) => e@ == payload_refusal(message@),
            _ => false,
        },
{
    let variables = match variables {
        Ok(json) => json,
        Err(message) => {
            return Err(
                BackendError::InvalidSpec {
                    message: joined(
                        "GraphQL plugin payload is not valid JSON: ",
                        message.as_str(),
                    ),
                },
            );
        },
    };
    let body = graphql_body(profile.operation.as_str(), variables.clone());
    let idempotency_key = match &request.idempotency {
        Some(hint) => Some(hint.key.clone()),
        None => None,
    };
    Ok(
        ExecutionPlan {
            tool_name: tool_name(backend_name, &request.headers),
            backend_name: backend_name.to_owned(),
            profile_url: profile.request.url.clone(),
            operation: profile.operation.clone(),
            variables,
            graphql_body: body,
            trace_headers: trace_headers(&request.headers),
            idempotency_key,
        },
    )
}

/// What became of a planned call.
#[derive(Debug)]
pub enum CallResult {
    /// The client or the URL could not be resolved, so nothing was sent.
    Unresolved { error: String, transport_error: DownstreamHttpError },
    /// The request was sent to the resolved URL.
    Sent { resolved_url: String, outcome: HttpOutcome },
}

/// A call was answered by a clean reply.
pub open spec fn is_clean_call(result: CallResult) -> bool {
    match result {
        CallResult::Unresolved { .. } => false,
        CallResult::Sent { outcome, .. } => is_clean(outcome),
    }
}

/// The status of the reply to a call, where there is one, has been checked.
pub open spec fn call_status_checked(result: CallResult) -> bool {
    match result {
        CallResult::Unresolved { .. } => true,
        CallResult::Sent { outcome, .. } => status_checked(outcome),
    }
}

/// The body of the reply to a call, where there is one and it is JSON, is plain
/// within `levels`.
pub open spec fn reply_plain_within(result: CallResult, levels: nat) -> bool {
    match result {
        CallResult::Sent { outcome: HttpOutcome::Replied { summary, .. }, .. } => match text_contents(
            summary.body@,
        ) {
            Some(json) => json.plain_within(levels),
            None => true,
        },
        _ => true,
    }
}

impl ExecutionPlanView {
    /// The draft that answers the call. It names the URL that was called, or
    /// that of the profile where none was.
    pub open spec fn draft(self, result: CallResult) -> EnvelopeDraftView {
        match result {
            CallResult::Unresolved { error, transport_error } => failure_draft(
                common_members(
                    self.tool_name,
                    self.backend_name,
                    self.profile_url,
                    self.operation,
                ),
                error@,
                transport_error@,
            ),
            CallResult::Sent { resolved_url, outcome } => outcome_draft(
                common_members(self.tool_name, self.backend_name, resolved_url@, self.operation),
                outcome,
            ),
        }
    }
}

impl ExecutionPlan {
    /// Drafts the envelope that answers the call.
    pub fn draft_envelope(&self, result: CallResult) -> (draft: EnvelopeDraft)
        ensures
            draft@ == self@.draft(result),
    {
        match result {
            CallResult::Unresolved { error, transport_error } => build_graphql_envelope(
                self.tool_name.as_str(),
                self.backend_name.as_str(),
                self.profile_url.as_str(),
                self.operation.as_str(),
                HttpOutcome::Failed { error, transport_error },
            ),
            CallResult::Sent { resolved_url, outcome } => build_graphql_envelope(
                self.tool_name.as_str(),
                self.backend_name.as_str(),
                resolved_url.as_str(),
                self.operation.as_str(),
                outcome,
            ),
        }
    }

    /// Answers the call. `encoded` is the downstream error of the draft as JSON.
    ///
    /// The payload carries the whole answer. Where it can be read, its
    /// `downstreamError` is that of the answer, whatever numbers the reply
    /// holds: `null` exactly for a clean reply.
    pub fn answer(&self, result: CallResult, encoded: Json) -> (r: BackendResponse)
        ensures
            r.payload@ == contents_bytes(self@.draft(result).finished(encoded@)),
            carries(r.payload@, self@.draft(result).finished(encoded@)),
            reply_plain_within(result, (read_depth() - 1) as nat) && encoded@.plain_within(
                (read_depth() - 1) as nat,
            ) ==> (bytes_contents(r.payload@) matches Ok(read) && read == self@.draft(
                result,
            ).finished(encoded@)),
            match bytes_contents(r.payload@) {
                Ok(read) => {
                    &&& self@.draft(result).finished(encoded@).same_but_for_fractions(read)
                    &&& encoded@.plain_within((read_depth() - 1) as nat) ==> read.member(
                        "downstreamError"@,
                    ) == self@.draft(result).finished(encoded@).member("downstreamError"@)
                    &&& call_status_checked(result) && encoded@ != JsonView::Null ==> (
                    read.member("downstreamError"@) == Some(JsonView::Null) <==> is_clean_call(
                        result,
                    ))
                },
                Err(_) => true,
            },
            !r.truncated,
    {
        let ghost levels = (read_depth() - 1) as nat;
        let ghost envelope = self@.draft(result).finished(encoded@);
        let r = self.draft_envelope(result).respond(encoded);
        proof {
            if encoded@.plain_within(levels) {
                law_answer_is_plain_where_its_parts_are(self@, result, encoded@, levels);
            }
            law_plain_members_are_read_back(r.payload@, envelope, "downstreamError"@, levels);
            if call_status_checked(result) && encoded@ != JsonView::Null {
                law_call_is_an_error_iff_not_clean(self@, result, encoded@);
            }
        }
        r
    }
}

} // verus!
