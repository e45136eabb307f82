//! What holds of the binding as a whole, over every input.
//!
//! Where a law speaks of a call by `call_ensures`, it holds of every result that
//! the contract of the called function allows.

pub mod answers;
pub mod calls;
pub mod registration;
pub mod values;

use vstd::prelude::*;

use crate::binding::{is_http_url, spec_fault, RegistrationPlanView};
use crate::call::{
    call_status_checked, execution_of, first_header, graphql_body_of, is_clean_call,
    is_trace_header, reply_plain_within, tool_name_of, trace_headers_of, variables_of, CallResult,
    ExecutionPlanView, GraphqlProfileView,
};
use crate::codec::{bytes_contents, carries, read_depth, text_contents};
use crate::envelope::{
    common_members, failure_draft, is_clean, outcome_draft, reply_draft, reply_error,
    reports_graphql_errors, status_checked, HttpOutcome,
};
use crate::json::{lemma_plain_is_the_same, members_plain_within, JsonMembers, JsonView};
use crate::plugin::{profiles_acceptable, ProfilesView};
use crate::protocol::{
    BackendRequestView, DownstreamHttpErrorView, HeaderView, HttpResponseSummary,
};
use crate::text::{is_blank, occurs_in, same_ignoring_ascii_case};

verus! {

/// A spec is accepted exactly when it keeps every rule: an `http` or `https`
/// URL without a `cred://` reference, an operation, and limits above zero.
pub proof fn law_spec_accepted_iff_every_rule_kept(
    url: Seq<char>,
    operation: Seq<char>,
    timeout_ms: int,
    max_response_bytes: int,
)
    ensures
        spec_fault(url, operation, timeout_ms, max_response_bytes) is None <==> {
            &&& is_http_url(url)
            &&& !occurs_in(url, "cred://"@)
            &&& !is_blank(operation)
            &&& timeout_ms != 0
            &&& max_response_bytes != 0
        },
{
    reveal_strlit("http://");
    reveal_strlit("https://");
    if "http://"@.is_prefix_of(url) {
        assert(url[0] == "http://"@[0]);
    }
    if "https://"@.is_prefix_of(url) {
        assert(url[0] == "https://"@[0]);
    }
}

/// A call finds the profile that was registered last under its name, and a
/// registration leaves the other names as they were.
pub proof fn law_last_registration_counts<N>(
    profiles: ProfilesView<N>,
    name: Seq<char>,
    earlier: GraphqlProfileView<N>,
    later: GraphqlProfileView<N>,
    other: Seq<char>,
)
    requires
        other != name,
    ensures
        profiles.insert(name, earlier).insert(name, later) == profiles.insert(name, later),
        profiles.insert(name, later)[name] == later,
        profiles.insert(name, later).contains_key(other) == profiles.contains_key(other),
        profiles.contains_key(other) ==> profiles.insert(name, later)[other] == profiles[other],
{
    assert(profiles.insert(name, earlier).insert(name, later) =~= profiles.insert(name, later));
}

/// The body of a request holds the operation as its `query`, the variables as
/// its `variables`, and nothing else.
pub proof fn law_body_is_query_and_variables(operation: Seq<char>, variables: JsonView, name: Seq<char>)
    ensures
        graphql_body_of(operation, variables).member("query"@) == Some(JsonView::Text(operation)),
        graphql_body_of(operation, variables).member("variables"@) == Some(variables),
        name != "query"@ && name != "variables"@ ==> graphql_body_of(operation, variables).member(
            name,
        ) is None,
{
    reveal_strlit("query");
    reveal_strlit("variables");
    assert("query"@.len() != "variables"@.len());
}

/// The operation that a call sends is the one that was registered, whatever the
/// call brings along.
pub proof fn law_operation_is_the_registered_one<N>(
    name: Seq<char>,
    profile: GraphqlProfileView<N>,
    request: BackendRequestView,
    variables: JsonView,
)
    ensures
        execution_of(name, profile, request, variables).operation == profile.operation,
        execution_of(name, profile, request, variables).graphql_body.member("query"@) == Some(
            JsonView::Text(profile.operation),
        ),
        execution_of(name, profile, request, variables).graphql_body.member("variables"@) == Some(
            variables,
        ),
{
    law_body_is_query_and_variables(profile.operation, variables, "query"@);
}

/// A call after a registration sends the operation of the spec that was
/// registered, and starts from its URL.
pub proof fn law_call_runs_what_was_registered<N>(
    profiles: ProfilesView<N>,
    name: Seq<char>,
    plan: RegistrationPlanView,
    net: N,
    request: BackendRequestView,
    variables: JsonView,
)
    ensures
        ({
            let profile = GraphqlProfileView {
                net,
                request: plan.request,
                operation: plan.operation,
            };
            let execution = execution_of(
                name,
                profiles.insert(name, profile)[name],
                request,
                variables,
            );
            &&& execution.profile_url == plan.request.url
            &&& execution.graphql_body == graphql_body_of(plan.operation, variables)
            &&& execution.graphql_body.member("query"@) == Some(JsonView::Text(plan.operation))
        }),
{
    law_body_is_query_and_variables(plan.operation, variables, "query"@);
}

/// A call without a payload has no variables.
pub proof fn law_empty_payload_has_no_variables(payload: Seq<u8>)
    requires
        payload.len() == 0,
    ensures
        variables_of(payload) == Ok::<JsonView, Seq<char>>(JsonView::Object(JsonMembers::empty())),
{
}

/// A call goes by the value of its first `mcpg-tool-name` header, in whatever
/// case the name is written.
pub proof fn law_first_tool_name_header_counts(
    backend_name: Seq<char>,
    headers: Seq<HeaderView>,
    at: int,
)
    requires
        0 <= at < headers.len(),
        same_ignoring_ascii_case(headers[at].0, "mcpg-tool-name"@),
        forall|i: int|
            0 <= i < at ==> !same_ignoring_ascii_case(#[trigger] headers[i].0, "mcpg-tool-name"@),
    ensures
        tool_name_of(backend_name, headers) == headers[at].1,
{
    lemma_first_header_at(headers, "mcpg-tool-name"@, at);
}

/// A call without a `mcpg-tool-name` header goes by the name of the backend.
pub proof fn law_backend_name_is_the_fallback(backend_name: Seq<char>, headers: Seq<HeaderView>)
    requires
        forall|i: int|
            0 <= i < headers.len() ==> !same_ignoring_ascii_case(
                #[trigger] headers[i].0,
                "mcpg-tool-name"@,
            ),
    ensures
        tool_name_of(backend_name, headers) == backend_name,
{
    lemma_first_header_absent(headers, "mcpg-tool-name"@);
}

proof fn lemma_first_header_at(headers: Seq<HeaderView>, name: Seq<char>, at: int)
    requires
        0 <= at < headers.len(),
        same_ignoring_ascii_case(headers[at].0, name),
        forall|i: int| 0 <= i < at ==> !same_ignoring_ascii_case(#[trigger] headers[i].0, name),
    ensures
        first_header(headers, name) == Some(headers[at].1),
    decreases headers.len(),
{
    if at > 0 {
        assert(!same_ignoring_ascii_case(headers[0].0, name));
        let rest = headers.drop_first();
        assert forall|i: int| 0 <= i < at - 1 implies !same_ignoring_ascii_case(
            #[trigger] rest[i].0,
            name,
        ) by {
            assert(rest[i] == headers[i + 1]);
        }
        lemma_first_header_at(rest, name, at - 1);
    }
}

proof fn lemma_first_header_absent(headers: Seq<HeaderView>, name: Seq<char>)
    requires
        forall|i: int|
            0 <= i < headers.len() ==> !same_ignoring_ascii_case(#[trigger] headers[i].0, name),
    ensures
        first_header(headers, name) is None,
    decreases headers.len(),
{
    if headers.len() > 0 {
        assert(!same_ignoring_ascii_case(headers[0].0, name));
        let rest = headers.drop_first();
        assert forall|i: int| 0 <= i < rest.len() implies !same_ignoring_ascii_case(
            #[trigger] rest[i].0,
            name,
        ) by {
            assert(rest[i] == headers[i + 1]);
        }
        lemma_first_header_absent(rest, name);
    }
}

/// The headers that travel with a call are its trace headers, all of them and
/// no others.
pub proof fn law_trace_headers_travel(headers: Seq<HeaderView>, header: HeaderView)
    ensures
        trace_headers_of(headers).contains(header) <==> headers.contains(header)
            && is_trace_header(header.0),
    decreases headers.len(),
{
    reveal(Seq::filter);
    if headers.len() > 0 {
        let rest = headers.drop_last();
        let last = headers.last();
        law_trace_headers_travel(rest, header);
        assert(headers =~= rest.push(last));
        assert(headers.contains(header) <==> rest.contains(header) || header == last) by {
            if headers.contains(header) {
                let i = choose|i: int| 0 <= i < headers.len() && headers[i] == header;
                if i < rest.len() {
                    assert(rest[i] == header);
                }
            }
            if rest.contains(header) {
                let i = choose|i: int| 0 <= i < rest.len() && rest[i] == header;
                assert(headers[i] == header);
            }
            assert(headers[headers.len() - 1] == last);
        }
        let kept = trace_headers_of(rest);
        if is_trace_header(last.0) {
            let now = kept.push(last);
            assert(trace_headers_of(headers) == now);
            assert(now.contains(header) <==> kept.contains(header) || header == last) by {
                if now.contains(header) {
                    let i = choose|i: int| 0 <= i < now.len() && now[i] == header;
                    if i < kept.len() {
                        assert(kept[i] == header);
                    }
                }
                if kept.contains(header) {
                    let i = choose|i: int| 0 <= i < kept.len() && kept[i] == header;
                    assert(now[i] == header);
                }
                assert(now[kept.len() as int] == last);
            }
        }
    }
}

/// The gateway sees an error exactly when there is one: `downstreamError` is
/// `null` for a clean reply, and for no other outcome.
pub proof fn law_downstream_error_iff_not_clean(
    common: JsonMembers,
    outcome: HttpOutcome,
    encoded: JsonView,
)
    requires
        status_checked(outcome),
        encoded != JsonView::Null,
    ensures
        outcome_draft(common, outcome).downstream is None <==> is_clean(outcome),
        outcome_draft(common, outcome).finished(encoded).member("downstreamError"@) == Some(
            if is_clean(outcome) {
                JsonView::Null
            } else {
                encoded
            },
        ),
{
}

/// The answer to a call says `null` for its `downstreamError` exactly when the
/// call was answered by a clean reply.
pub proof fn law_call_is_an_error_iff_not_clean(
    plan: ExecutionPlanView,
    result: CallResult,
    encoded: JsonView,
)
    requires
        call_status_checked(result),
        encoded != JsonView::Null,
    ensures
        plan.draft(result).finished(encoded).member("downstreamError"@) == Some(JsonView::Null)
            <==> is_clean_call(result),
{
}

/// Every call of a registered profile starts from a plain `http` or `https` URL
/// and sends an operation.
pub proof fn law_registered_calls_are_acceptable<N>(
    profiles: ProfilesView<N>,
    name: Seq<char>,
    request: BackendRequestView,
    variables: JsonView,
)
    requires
        profiles_acceptable(profiles),
        profiles.contains_key(name),
    ensures
        is_http_url(execution_of(name, profiles[name], request, variables).profile_url),
        !occurs_in(
            execution_of(name, profiles[name], request, variables).profile_url,
            "cred://"@,
        ),
        !is_blank(execution_of(name, profiles[name], request, variables).operation),
{
}

/// A call that could not be set up is reported as an error, under the URL of
/// the profile.
pub proof fn law_unresolved_call_is_an_error(
    plan: ExecutionPlanView,
    result: CallResult,
    encoded: JsonView,
)
    requires
        result is Unresolved,
    ensures
        plan.draft(result).finished(encoded).member("downstreamError"@) == Some(encoded),
        plan.draft(result).finished(encoded).member("error"@) == Some(
            JsonView::Text(result->Unresolved_error@),
        ),
        plan.draft(result).finished(encoded).member("url"@) == Some(
            JsonView::Text(plan.profile_url),
        ),
        plan.draft(result).downstream == Some(result->Unresolved_transport_error@),
{
    lemma_names_differ();
}

/// A status that is not expected is reported before the errors in the body; the
/// errors in the body are reported as they came, and never to be retried.
pub proof fn law_status_error_comes_first(
    status_error: Option<DownstreamHttpErrorView>,
    response: Option<JsonView>,
)
    ensures
        status_error is Some ==> reply_error(status_error, response) == status_error,
        status_error is None && reports_graphql_errors(response) ==> {
            let error = reply_error(status_error, response)->0;
            &&& reply_error(status_error, response) is Some
            &&& error.details.member("errors"@) == response->0.member("errors"@)
            &&& !error.retryable
            &&& error.status_code == Some(200u16)
        },
        status_error is None && !reports_graphql_errors(response) ==> reply_error(
            status_error,
            response,
        ) is None,
{
}

/// The names of an envelope's members are all different.
proof fn lemma_names_differ()
    ensures
        "toolName"@ != "profile"@,
        "toolName"@ != "url"@,
        "toolName"@ != "operation"@,
        "toolName"@ != "statusCode"@,
        "toolName"@ != "durationMs"@,
        "toolName"@ != "bodyTruncated"@,
        "toolName"@ != "hasGraphqlErrors"@,
        "toolName"@ != "body"@,
        "toolName"@ != "response"@,
        "toolName"@ != "error"@,
        "toolName"@ != "downstreamError"@,
        "profile"@ != "url"@,
        "profile"@ != "operation"@,
        "profile"@ != "statusCode"@,
        "profile"@ != "durationMs"@,
        "profile"@ != "bodyTruncated"@,
        "profile"@ != "hasGraphqlErrors"@,
        "profile"@ != "body"@,
        "profile"@ != "response"@,
        "profile"@ != "error"@,
        "profile"@ != "downstreamError"@,
        "url"@ != "operation"@,
        "url"@ != "statusCode"@,
        "url"@ != "durationMs"@,
        "url"@ != "bodyTruncated"@,
        "url"@ != "hasGraphqlErrors"@,
        "url"@ != "body"@,
        "url"@ != "response"@,
        "url"@ != "error"@,
        "url"@ != "downstreamError"@,
        "operation"@ != "statusCode"@,
        "operation"@ != "durationMs"@,
        "operation"@ != "bodyTruncated"@,
        "operation"@ != "hasGraphqlErrors"@,
        "operation"@ != "body"@,
        "operation"@ != "response"@,
        "operation"@ != "error"@,
        "operation"@ != "downstreamError"@,
        "statusCode"@ != "durationMs"@,
        "statusCode"@ != "bodyTruncated"@,
        "statusCode"@ != "hasGraphqlErrors"@,
        "statusCode"@ != "body"@,
        "statusCode"@ != "response"@,
        "statusCode"@ != "downstreamError"@,
        "durationMs"@ != "bodyTruncated"@,
        "durationMs"@ != "hasGraphqlErrors"@,
        "durationMs"@ != "body"@,
        "durationMs"@ != "response"@,
        "durationMs"@ != "downstreamError"@,
        "bodyTruncated"@ != "hasGraphqlErrors"@,
        "bodyTruncated"@ != "body"@,
        "bodyTruncated"@ != "response"@,
        "bodyTruncated"@ != "downstreamError"@,
        "hasGraphqlErrors"@ != "body"@,
        "hasGraphqlErrors"@ != "response"@,
        "hasGraphqlErrors"@ != "downstreamError"@,
        "body"@ != "response"@,
        "body"@ != "downstreamError"@,
        "response"@ != "downstreamError"@,
        "error"@ != "downstreamError"@,
{
    reveal_strlit("toolName");
    reveal_strlit("profile");
    reveal_strlit("url");
    reveal_strlit("operation");
    reveal_strlit("statusCode");
    reveal_strlit("durationMs");
    reveal_strlit("bodyTruncated");
    reveal_strlit("hasGraphqlErrors");
    reveal_strlit("body");
    reveal_strlit("response");
    reveal_strlit("error");
    reveal_strlit("downstreamError");
    assert("toolName"@.len() == 8);
    assert("profile"@.len() == 7);
    assert("url"@.len() == 3);
    assert("operation"@.len() == 9);
    assert("statusCode"@.len() == 10);
    assert("durationMs"@.len() == 10);
    assert("bodyTruncated"@.len() == 13);
    assert("hasGraphqlErrors"@.len() == 16);
    assert("body"@.len() == 4);
    assert("response"@.len() == 8);
    assert("error"@.len() == 5);
    assert("downstreamError"@.len() == 15);
    assert("toolName"@[0] != "response"@[0]);
    assert("statusCode"@[0] != "durationMs"@[0]);
}

/// The envelope of a reply carries the call and the reply unchanged, and flags
/// GraphQL errors exactly when the body has some.
pub proof fn law_reply_envelope_members(
    tool_name: Seq<char>,
    backend_name: Seq<char>,
    url: Seq<char>,
    operation: Seq<char>,
    summary: HttpResponseSummary,
    status_error: Option<DownstreamHttpErrorView>,
    response: Option<JsonView>,
    encoded: JsonView,
)
    ensures
        ({
            let envelope = reply_draft(
                common_members(tool_name, backend_name, url, operation),
                summary,
                status_error,
                response,
            ).finished(encoded);
            &&& envelope.member("toolName"@) == Some(JsonView::Text(tool_name))
            &&& envelope.member("profile"@) == Some(JsonView::Text(backend_name))
            &&& envelope.member("url"@) == Some(JsonView::Text(url))
            &&& envelope.member("operation"@) == Some(JsonView::Text(operation))
            &&& envelope.member("statusCode"@) == Some(
                JsonView::Integer(summary.status_code as int),
            )
            &&& envelope.member("durationMs"@) == Some(
                JsonView::Integer(summary.duration_ms as int),
            )
            &&& envelope.member("bodyTruncated"@) == Some(JsonView::Bool(summary.body_truncated))
            &&& envelope.member("hasGraphqlErrors"@) == Some(
                JsonView::Bool(reports_graphql_errors(response)),
            )
            &&& envelope.member("body"@) == Some(JsonView::Text(summary.body@))
            &&& envelope.member("response"@) == Some(
                match response {
                    Some(json) => json,
                    None => JsonView::Null,
                },
            )
        }),
{
    lemma_names_differ();
}

/// The envelope of a call that got no reply carries the call and the failure
/// unchanged.
pub proof fn law_failure_envelope_members(
    tool_name: Seq<char>,
    backend_name: Seq<char>,
    url: Seq<char>,
    operation: Seq<char>,
    error: Seq<char>,
    transport_error: DownstreamHttpErrorView,
    encoded: JsonView,
)
    ensures
        ({
            let envelope = failure_draft(
                common_members(tool_name, backend_name, url, operation),
                error,
                transport_error,
            ).finished(encoded);
            &&& envelope.member("toolName"@) == Some(JsonView::Text(tool_name))
            &&& envelope.member("profile"@) == Some(JsonView::Text(backend_name))
            &&& envelope.member("url"@) == Some(JsonView::Text(url))
            &&& envelope.member("operation"@) == Some(JsonView::Text(operation))
            &&& envelope.member("error"@) == Some(JsonView::Text(error))
            &&& envelope.member("downstreamError"@) == Some(encoded)
        }),
{
    lemma_names_differ();
}

proof fn lemma_insert_plain(members: JsonMembers, levels: nat, name: Seq<char>, value: JsonView)
    requires
        members_plain_within(members, levels),
        value.plain_within(levels),
    ensures
        members_plain_within(members.insert(name, value), levels),
{
    let now = members.insert(name, value);
    assert forall|n: Seq<char>| #[trigger] now.contains_key(n) implies now[n].plain_within(
        levels,
    ) by {
        if n != name {
            assert(members.contains_key(n));
        }
    }
}

proof fn lemma_common_members_plain(
    tool_name: Seq<char>,
    backend_name: Seq<char>,
    url: Seq<char>,
    operation: Seq<char>,
    levels: nat,
)
    ensures
        members_plain_within(common_members(tool_name, backend_name, url, operation), levels),
{
    let m0 = JsonMembers::empty();
    let m1 = m0.insert("toolName"@, JsonView::Text(tool_name));
    let m2 = m1.insert("profile"@, JsonView::Text(backend_name));
    let m3 = m2.insert("url"@, JsonView::Text(url));
    lemma_insert_plain(m0, levels, "toolName"@, JsonView::Text(tool_name));
    lemma_insert_plain(m1, levels, "profile"@, JsonView::Text(backend_name));
    lemma_insert_plain(m2, levels, "url"@, JsonView::Text(url));
    lemma_insert_plain(m3, levels, "operation"@, JsonView::Text(operation));
}

proof fn lemma_outcome_members_plain(common: JsonMembers, outcome: HttpOutcome, levels: nat)
    requires
        members_plain_within(common, levels),
    ensures
        (outcome is Replied ==> match text_contents(outcome->summary.body@) {
            Some(json) => json.plain_within(levels),
            None => true,
        }) ==> members_plain_within(outcome_draft(common, outcome).members, levels),
{
    match outcome {
        HttpOutcome::Replied { summary, status_error } => {
            let response = text_contents(summary.body@);
            let status = JsonView::Integer(summary.status_code as int);
            let duration = JsonView::Integer(summary.duration_ms as int);
            let truncated = JsonView::Bool(summary.body_truncated);
            let flag = JsonView::Bool(reports_graphql_errors(response));
            let body = JsonView::Text(summary.body@);
            let read = match response {
                Some(json) => json,
                None => JsonView::Null,
            };
            let m1 = common.insert("statusCode"@, status);
            let m2 = m1.insert("durationMs"@, duration);
            let m3 = m2.insert("bodyTruncated"@, truncated);
            let m4 = m3.insert("hasGraphqlErrors"@, flag);
            let m5 = m4.insert("body"@, body);
            lemma_insert_plain(common, levels, "statusCode"@, status);
            lemma_insert_plain(m1, levels, "durationMs"@, duration);
            lemma_insert_plain(m2, levels, "bodyTruncated"@, truncated);
            lemma_insert_plain(m3, levels, "hasGraphqlErrors"@, flag);
            lemma_insert_plain(m4, levels, "body"@, body);
            if read.plain_within(levels) {
                lemma_insert_plain(m5, levels, "response"@, read);
            }
        },
        HttpOutcome::Failed { error, transport_error } => {
            lemma_insert_plain(common, levels, "error"@, JsonView::Text(error@));
        },
    }
}

/// The answer to a call is plain and nests no deeper than can be read, where
/// the body of the reply and the error that is written in are plain and leave
/// room for the one level that the envelope adds.
pub proof fn law_answer_is_plain_where_its_parts_are(
    plan: ExecutionPlanView,
    result: CallResult,
    encoded: JsonView,
    levels: nat,
)
    requires
        encoded.plain_within(levels),
        levels < read_depth(),
    ensures
        reply_plain_within(result, levels) ==> plan.draft(result).finished(encoded).plain_within(
            levels + 1,
        ),
        reply_plain_within(result, levels) ==> plan.draft(result).finished(encoded).plain_within(
            read_depth(),
        ),
{
    let url = match result {
        CallResult::Unresolved { .. } => plan.profile_url,
        CallResult::Sent { resolved_url, .. } => resolved_url@,
    };
    let common = common_members(plan.tool_name, plan.backend_name, url, plan.operation);
    lemma_common_members_plain(plan.tool_name, plan.backend_name, url, plan.operation, levels);
    match result {
        CallResult::Unresolved { error, .. } => {
            lemma_insert_plain(common, levels, "error"@, JsonView::Text(error@));
        },
        CallResult::Sent { outcome, .. } => {
            lemma_outcome_members_plain(common, outcome, levels);
        },
    }
    if reply_plain_within(result, levels) {
        let draft = plan.draft(result);
        let slot = if draft.downstream is Some {
            encoded
        } else {
            JsonView::Null
        };
        lemma_insert_plain(draft.members, levels, "downstreamError"@, slot);
        lemma_plain_within_more(draft.finished(encoded), levels + 1, read_depth());
    }
}

/// What is plain within some levels is so within more.
proof fn lemma_plain_within_more(json: JsonView, levels: nat, more: nat)
    requires
        json.plain_within(levels),
        levels <= more,
    ensures
        json.plain_within(more),
    decreases levels,
{
    match json {
        JsonView::Array(items) => {
            assert forall|i: int| 0 <= i < items.len() implies (
            #[trigger] items[i]).plain_within((more - 1) as nat) by {
                lemma_plain_within_more(items[i], (levels - 1) as nat, (more - 1) as nat);
            }
        },
        JsonView::Object(members) => {
            assert forall|name: Seq<char>| #[trigger]
                members.contains_key(name) implies members[name].plain_within(
                (more - 1) as nat,
            ) by {
                lemma_plain_within_more(members[name], (levels - 1) as nat, (more - 1) as nat);
            }
        },
        _ => {},
    }
}

/// Whatever is read from the bytes that carry a JSON value has the same members:
/// a plain one as it was, whatever the others hold, and `null` exactly where
/// there was `null`.
pub proof fn law_plain_members_are_read_back(
    bytes: Seq<u8>,
    contents: JsonView,
    name: Seq<char>,
    levels: nat,
)
    ensures
        carries(bytes, contents) ==> match bytes_contents(bytes) {
            Ok(read) => {
                &&& contents.member(name) is Some <==> read.member(name) is Some
                &&& contents.member(name) is Some && contents.member(name)->0.plain_within(levels)
                    ==> read.member(name) == contents.member(name)
                &&& contents.member(name) == Some(JsonView::Null) <==> read.member(name) == Some(
                    JsonView::Null,
                )
            },
            Err(_) => true,
        },
{
    match (contents, bytes_contents(bytes)) {
        (JsonView::Object(members), Ok(JsonView::Object(others))) => {
            if carries(bytes, contents) {
                assert(members.dom().contains(name) == others.dom().contains(name));
                if members.contains_key(name) {
                    assert(members[name].same_but_for_fractions(others[name]));
                    if members[name].plain_within(levels) {
                        lemma_plain_is_the_same(members[name], others[name], levels);
                    }
                }
            }
        },
        _ => {},
    }
}

} // verus!
