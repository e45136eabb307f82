//! What holds of the answer to a call, over every reply and every failure.

use vstd::prelude::*;

use super::{law_plain_members_are_read_back, lemma_names_differ};
use crate::call::{call_status_checked, is_clean_call, CallResult, ExecutionPlan, ExecutionPlanView};
use crate::codec::{bytes_contents, contents_bytes, text_contents};
use crate::envelope::{
    build_graphql_envelope, draft_reply_envelope, envelope_response, graphql_errors_downstream_error,
    has_graphql_errors, is_clean, response_from_bytes,
    select_downstream_error, status_checked, EnvelopeDraft, HttpOutcome,
};
use crate::json::{members_view, Json, JsonView};
use crate::protocol::{BackendResponse, DownstreamHttpError, HttpResponseSummary};

verus! {

/// A response reports errors exactly when it is an object whose `errors` are an
/// array with at least one element, however many there are.
pub proof fn law_errors_are_an_array_with_an_element(response: Option<&Json>, r: bool)
    requires
        call_ensures(has_graphql_errors, (response,), r),
    ensures
        r <==> response is Some && match response->0@ {
            JsonView::Object(members) => members.contains_key("errors"@) && members["errors"@] is Array
                && members["errors"@]->Array_0.len() >= 1,
            _ => false,
        },
{
}

/// A reply is clean exactly when it came under status 200 and its body is not a
/// JSON object whose `errors` are an array with at least one element. No other
/// outcome is clean. A status counts as checked when an error came with it
/// exactly where it is not 200.
pub proof fn law_clean_is_status_200_without_errors(
    resolved_url: String,
    summary: HttpResponseSummary,
    status_error: Option<DownstreamHttpError>,
    error: String,
    transport_error: DownstreamHttpError,
)
    ensures
        ({
            let replied = HttpOutcome::Replied { summary, status_error };
            let clean = summary.status_code == 200 && !match text_contents(summary.body@) {
                Some(JsonView::Object(members)) => members.contains_key("errors"@)
                    && members["errors"@] is Array && members["errors"@]->Array_0.len() >= 1,
                _ => false,
            };
            let checked = status_error is Some <==> summary.status_code != 200;
            &&& is_clean(replied) <==> clean
            &&& is_clean_call(CallResult::Sent { resolved_url, outcome: replied }) <==> clean
            &&& status_checked(replied) <==> checked
            &&& call_status_checked(CallResult::Sent { resolved_url, outcome: replied })
                <==> checked
        }),
        ({
            let failed = HttpOutcome::Failed { error, transport_error };
            &&& !is_clean(failed)
            &&& status_checked(failed)
            &&& !is_clean_call(CallResult::Sent { resolved_url, outcome: failed })
            &&& call_status_checked(CallResult::Sent { resolved_url, outcome: failed })
            &&& !is_clean_call(CallResult::Unresolved { error, transport_error })
            &&& call_status_checked(CallResult::Unresolved { error, transport_error })
        }),
{
}

/// The error for a reply with GraphQL errors is one for the caller to look
/// into and never to retry, and hands the errors on as they came.
pub proof fn law_graphql_errors_are_handed_on(
    errors: Json,
    e: DownstreamHttpError,
    member: Seq<char>,
)
    requires
        call_ensures(graphql_errors_downstream_error, (&errors,), e),
    ensures
        ({
            &&& e.kind@ == "graphql_errors"@
            &&& e.code@ == "mcpg.downstream_graphql.errors"@
            &&& e.message@ == "GraphQL response returned a non-empty `errors` array."@
            &&& !e.retryable
            &&& e.retry_class@ == "do_not_retry"@
            &&& e.retry_after_ms is None
            &&& e.idempotency_hint@ == "potentially_non_idempotent"@
            &&& e.caller_retry_decision@ == "do_not_retry"@
            &&& e.retry_safety@ == "do_not_retry"@
            &&& e.backoff_strategy@ == "no_retry"@
            &&& e.minimum_backoff_ms is None
            &&& e.suggested_action@ == "inspect_graphql_errors"@
            &&& e.status_code == Some(200u16)
            &&& e.details@ is Object
            &&& e.details@->Object_0.contains_key(member) <==> member == "errors"@
            &&& e.details@->Object_0["errors"@] == errors@
        }),
{
}

/// The error of the status comes first, as it is; the errors in the body count
/// only without one, and are handed on as they came; a reply with neither has no
/// error.
pub proof fn law_status_comes_before_the_body(
    status_error: Option<DownstreamHttpError>,
    response: Option<&Json>,
    r: Option<DownstreamHttpError>,
    member: Seq<char>,
)
    requires
        call_ensures(select_downstream_error, (status_error, response), r),
    ensures
        ({
            let flagged = response is Some && match response->0@ {
                JsonView::Object(members) => members.contains_key("errors"@)
                    && members["errors"@] is Array && members["errors"@]->Array_0.len() >= 1,
                _ => false,
            };
            &&& status_error is Some ==> r is Some && r->0@ == status_error->0@
            &&& status_error is None && !flagged ==> r is None
            &&& status_error is None && flagged ==> r is Some && {
                let e = r->0;
                &&& e.kind@ == "graphql_errors"@
                &&& e.code@ == "mcpg.downstream_graphql.errors"@
                &&& e.message@ == "GraphQL response returned a non-empty `errors` array."@
                &&& !e.retryable
                &&& e.retry_class@ == "do_not_retry"@
                &&& e.retry_after_ms is None
                &&& e.idempotency_hint@ == "potentially_non_idempotent"@
                &&& e.caller_retry_decision@ == "do_not_retry"@
                &&& e.retry_safety@ == "do_not_retry"@
                &&& e.backoff_strategy@ == "no_retry"@
                &&& e.minimum_backoff_ms is None
                &&& e.suggested_action@ == "inspect_graphql_errors"@
                &&& e.status_code == Some(200u16)
                &&& e.details@ is Object
                &&& e.details@->Object_0.contains_key(member) <==> member == "errors"@
                &&& e.details@->Object_0["errors"@] == response->0@->Object_0["errors"@]
            }
        }),
{
}

/// The answer to a call that got a reply says which tool and which binding were
/// called, where it was sent, what was asked, and what came back, each under its
/// own name and nothing else. Its `downstreamError` is `null` where there is
/// neither an error of the status nor a GraphQL error in the body, and else the
/// error as it was written.
pub proof fn law_answer_to_a_reply(
    plan: ExecutionPlanView,
    resolved_url: String,
    summary: HttpResponseSummary,
    status_error: Option<DownstreamHttpError>,
    encoded: JsonView,
    name: Seq<char>,
)
    ensures
        ({
            let result = CallResult::Sent {
                resolved_url,
                outcome: HttpOutcome::Replied { summary, status_error },
            };
            let envelope = plan.draft(result).finished(encoded);
            let response = text_contents(summary.body@);
            let flagged = match response {
                Some(JsonView::Object(members)) => members.contains_key("errors"@)
                    && members["errors"@] is Array && members["errors"@]->Array_0.len() >= 1,
                _ => false,
            };
            &&& envelope is Object
            &&& envelope->Object_0.contains_key(name) <==> {
                ||| name == "toolName"@
                ||| name == "profile"@
                ||| name == "url"@
                ||| name == "operation"@
                ||| name == "statusCode"@
                ||| name == "durationMs"@
                ||| name == "bodyTruncated"@
                ||| name == "hasGraphqlErrors"@
                ||| name == "body"@
                ||| name == "response"@
                ||| name == "downstreamError"@
            }
            &&& envelope->Object_0["toolName"@] == JsonView::Text(plan.tool_name)
            &&& envelope->Object_0["profile"@] == JsonView::Text(plan.backend_name)
            &&& envelope->Object_0["url"@] == JsonView::Text(resolved_url@)
            &&& envelope->Object_0["operation"@] == JsonView::Text(plan.operation)
            &&& envelope->Object_0["statusCode"@] == JsonView::Integer(summary.status_code as int)
            &&& envelope->Object_0["durationMs"@] == JsonView::Integer(summary.duration_ms as int)
            &&& envelope->Object_0["bodyTruncated"@] == JsonView::Bool(summary.body_truncated)
            &&& envelope->Object_0["hasGraphqlErrors"@] == JsonView::Bool(flagged)
            &&& envelope->Object_0["body"@] == JsonView::Text(summary.body@)
            &&& response is Some ==> envelope->Object_0["response"@] == response->0
            &&& response is None ==> envelope->Object_0["response"@] == JsonView::Null
            &&& status_error is None && !flagged ==> envelope->Object_0["downstreamError"@]
                == JsonView::Null
            &&& status_error is Some || flagged ==> envelope->Object_0["downstreamError"@]
                == encoded
        }),
{
    lemma_names_differ();
}

/// The answer to a call that got no reply says the same of the call, and why it
/// got none. It names the URL that was called, or that of the profile where
/// nothing was sent. Its `downstreamError` is always the error as it was
/// written.
pub proof fn law_answer_without_a_reply(
    plan: ExecutionPlanView,
    resolved_url: String,
    error: String,
    transport_error: DownstreamHttpError,
    encoded: JsonView,
    name: Seq<char>,
)
    ensures
        ({
            let failed = plan.draft(
                CallResult::Sent {
                    resolved_url,
                    outcome: HttpOutcome::Failed { error, transport_error },
                },
            ).finished(encoded);
            let unresolved = plan.draft(
                CallResult::Unresolved { error, transport_error },
            ).finished(encoded);
            &&& failed is Object
            &&& failed->Object_0.contains_key(name) <==> {
                ||| name == "toolName"@
                ||| name == "profile"@
                ||| name == "url"@
                ||| name == "operation"@
                ||| name == "error"@
                ||| name == "downstreamError"@
            }
            &&& failed->Object_0["toolName"@] == JsonView::Text(plan.tool_name)
            &&& failed->Object_0["profile"@] == JsonView::Text(plan.backend_name)
            &&& failed->Object_0["url"@] == JsonView::Text(resolved_url@)
            &&& failed->Object_0["operation"@] == JsonView::Text(plan.operation)
            &&& failed->Object_0["error"@] == JsonView::Text(error@)
            &&& failed->Object_0["downstreamError"@] == encoded
            &&& unresolved is Object
            &&& unresolved->Object_0.contains_key(name) <==> {
                ||| name == "toolName"@
                ||| name == "profile"@
                ||| name == "url"@
                ||| name == "operation"@
                ||| name == "error"@
                ||| name == "downstreamError"@
            }
            &&& unresolved->Object_0["toolName"@] == JsonView::Text(plan.tool_name)
            &&& unresolved->Object_0["profile"@] == JsonView::Text(plan.backend_name)
            &&& unresolved->Object_0["url"@] == JsonView::Text(plan.profile_url)
            &&& unresolved->Object_0["operation"@] == JsonView::Text(plan.operation)
            &&& unresolved->Object_0["error"@] == JsonView::Text(error@)
            &&& unresolved->Object_0["downstreamError"@] == encoded
        }),
{
    lemma_names_differ();
}

/// A draft is finished by putting in the error that it reports, as it was
/// written, or `null` where it reports none. The other members stay.
pub proof fn law_finishing_puts_in_the_error(
    draft: EnvelopeDraft,
    encoded: Json,
    envelope: Json,
    name: Seq<char>,
)
    requires
        call_ensures(EnvelopeDraft::finish, (draft, encoded), envelope),
    ensures
        envelope@ is Object,
        envelope@->Object_0.contains_key("downstreamError"@),
        draft.downstream is Some ==> envelope@->Object_0["downstreamError"@] == encoded@,
        draft.downstream is None ==> envelope@->Object_0["downstreamError"@] == JsonView::Null,
        name != "downstreamError"@ ==> envelope@->Object_0.contains_key(name) == members_view(
            draft.members@,
        ).contains_key(name),
        name != "downstreamError"@ && members_view(draft.members@).contains_key(name)
            ==> envelope@->Object_0[name] == members_view(draft.members@)[name],
{
}

/// The error that the answer reports: the one of the transport where no reply
/// came, the one of the status where the reply has one, and else one that hands
/// the GraphQL errors of the body on, where it has any.
pub proof fn law_answer_reports_the_error(
    plan: ExecutionPlan,
    result: CallResult,
    draft: EnvelopeDraft,
    member: Seq<char>,
)
    requires
        call_ensures(ExecutionPlan::draft_envelope, (&plan, result), draft),
    ensures
        match result {
            CallResult::Unresolved { transport_error, .. } => draft.downstream is Some
                && draft.downstream->0@ == transport_error@,
            CallResult::Sent { outcome: HttpOutcome::Failed { transport_error, .. }, .. } =>
            draft.downstream is Some && draft.downstream->0@ == transport_error@,
            CallResult::Sent { outcome: HttpOutcome::Replied { summary, status_error }, .. } => {
                let response = text_contents(summary.body@);
                let flagged = match response {
                    Some(JsonView::Object(members)) => members.contains_key("errors"@)
                        && members["errors"@] is Array && members["errors"@]->Array_0.len() >= 1,
                    _ => false,
                };
                &&& status_error is Some ==> draft.downstream is Some && draft.downstream->0@
                    == status_error->0@
                &&& status_error is None && !flagged ==> draft.downstream is None
                &&& status_error is None && flagged ==> draft.downstream is Some && {
                    let e = draft.downstream->0;
                    &&& e.kind@ == "graphql_errors"@
                    &&& e.code@ == "mcpg.downstream_graphql.errors"@
                    &&& e.message@ == "GraphQL response returned a non-empty `errors` array."@
                    &&& !e.retryable
                    &&& e.retry_class@ == "do_not_retry"@
                    &&& e.retry_after_ms is None
                    &&& e.idempotency_hint@ == "potentially_non_idempotent"@
                    &&& e.caller_retry_decision@ == "do_not_retry"@
                    &&& e.retry_safety@ == "do_not_retry"@
                    &&& e.backoff_strategy@ == "no_retry"@
                    &&& e.minimum_backoff_ms is None
                    &&& e.suggested_action@ == "inspect_graphql_errors"@
                    &&& e.status_code == Some(200u16)
                    &&& e.details@ is Object
                    &&& e.details@->Object_0.contains_key(member) <==> member == "errors"@
                    &&& e.details@->Object_0["errors"@] == response->0->Object_0["errors"@]
                }
            },
        },
{
}

/// A call is answered with the draft of its envelope, finished and written: the
/// steps taken one by one give the same payload. It is never cut short.
pub proof fn law_answer_is_the_finished_draft(
    plan: ExecutionPlan,
    result: CallResult,
    encoded: Json,
    draft: EnvelopeDraft,
    envelope: Json,
    answered: BackendResponse,
    responded: BackendResponse,
    written: BackendResponse,
)
    requires
        call_ensures(ExecutionPlan::draft_envelope, (&plan, result), draft),
        call_ensures(EnvelopeDraft::finish, (draft, encoded), envelope),
        call_ensures(ExecutionPlan::answer, (&plan, result, encoded), answered),
        call_ensures(EnvelopeDraft::respond, (draft, encoded), responded),
        call_ensures(envelope_response, (envelope,), written),
    ensures
        envelope@ == plan@.draft(result).finished(encoded@),
        answered.payload@ == contents_bytes(envelope@),
        responded.payload@ == contents_bytes(envelope@),
        written.payload@ == contents_bytes(envelope@),
        !answered.truncated,
        !responded.truncated,
        !written.truncated,
{
}

/// What was written is the payload, and `{}` stands in where writing failed.
pub proof fn law_payload_is_what_was_written(bytes: Option<Vec<u8>>, r: BackendResponse)
    requires
        call_ensures(response_from_bytes, (bytes,), r),
    ensures
        bytes is Some ==> r.payload@ == bytes->0@,
        bytes is None ==> r.payload@.len() == 2 && r.payload@[0] == 0x7b && r.payload@[1] == 0x7d,
        !r.truncated,
{
}

/// The envelope of a planned call is the one that is built from the parts of the
/// plan and the URL that was called, and the one of a reply is built from its
/// body as it reads.
pub proof fn law_envelope_is_built_from_the_plan(
    plan: ExecutionPlan,
    tool_name: &str,
    backend_name: &str,
    url: &str,
    operation: &str,
    resolved_url: String,
    outcome: HttpOutcome,
    drafted: EnvelopeDraft,
    built: EnvelopeDraft,
    response: Option<Json>,
    replied: EnvelopeDraft,
)
    requires
        tool_name@ == plan.tool_name@,
        backend_name@ == plan.backend_name@,
        url@ == resolved_url@,
        operation@ == plan.operation@,
        call_ensures(
            ExecutionPlan::draft_envelope,
            (&plan, CallResult::Sent { resolved_url, outcome }),
            drafted,
        ),
        call_ensures(
            build_graphql_envelope,
            (tool_name, backend_name, url, operation, outcome),
            built,
        ),
    ensures
        built@ == drafted@,
        match outcome {
            HttpOutcome::Replied { summary, status_error } => call_ensures(
                draft_reply_envelope,
                (tool_name, backend_name, url, operation, summary, status_error, response),
                replied,
            ) && (response is Some <==> text_contents(summary.body@) is Some) && (response is Some
                ==> response->0@ == text_contents(summary.body@)->0) ==> replied@ == built@,
            HttpOutcome::Failed { .. } => true,
        },
{
}

/// A gateway that can read the payload of an answer reads which tool and which
/// binding were called, where, and with what operation. Of a reply it reads the
/// status, the duration, the body and whether it was cut, and whether the body
/// holds GraphQL errors. It reads `null` for the `downstreamError` exactly where
/// the reply came without an error of the status and without GraphQL errors.
pub proof fn law_gateway_reads_the_answer(
    plan: ExecutionPlan,
    result: CallResult,
    encoded: Json,
    r: BackendResponse,
)
    requires
        call_ensures(ExecutionPlan::answer, (&plan, result, encoded), r),
        encoded@ != JsonView::Null,
    ensures
        bytes_contents(r.payload@) is Ok ==> {
            let read = bytes_contents(r.payload@)->Ok_0;
            &&& read is Object
            &&& read->Object_0["toolName"@] == JsonView::Text(plan.tool_name@)
            &&& read->Object_0["profile"@] == JsonView::Text(plan.backend_name@)
            &&& read->Object_0["operation"@] == JsonView::Text(plan.operation@)
            &&& match result {
                CallResult::Unresolved { error, .. } => {
                    &&& read->Object_0["url"@] == JsonView::Text(plan.profile_url@)
                    &&& read->Object_0["error"@] == JsonView::Text(error@)
                    &&& read->Object_0["downstreamError"@] != JsonView::Null
                },
                CallResult::Sent { resolved_url, outcome: HttpOutcome::Failed { error, .. } } => {
                    &&& read->Object_0["url"@] == JsonView::Text(resolved_url@)
                    &&& read->Object_0["error"@] == JsonView::Text(error@)
                    &&& read->Object_0["downstreamError"@] != JsonView::Null
                },
                CallResult::Sent {
                    resolved_url,
                    outcome: HttpOutcome::Replied { summary, status_error },
                } => {
                    let flagged = match text_contents(summary.body@) {
                        Some(JsonView::Object(members)) => members.contains_key("errors"@)
                            && members["errors"@] is Array && members["errors"@]->Array_0.len() >= 1,
                        _ => false,
                    };
                    &&& read->Object_0["url"@] == JsonView::Text(resolved_url@)
                    &&& read->Object_0["statusCode"@] == JsonView::Integer(
                        summary.status_code as int,
                    )
                    &&& read->Object_0["durationMs"@] == JsonView::Integer(
                        summary.duration_ms as int,
                    )
                    &&& read->Object_0["bodyTruncated"@] == JsonView::Bool(summary.body_truncated)
                    &&& read->Object_0["body"@] == JsonView::Text(summary.body@)
                    &&& read->Object_0["hasGraphqlErrors"@] == JsonView::Bool(flagged)
                    &&& read->Object_0["downstreamError"@] == JsonView::Null <==> status_error is None
                        && !flagged
                },
            }
        },
{
    let envelope = plan@.draft(result).finished(encoded@);
    let bytes = r.payload@;
    match result {
        CallResult::Unresolved { error, transport_error } => {
            law_answer_without_a_reply(plan@, error, error, transport_error, encoded@, "error"@);
        },
        CallResult::Sent {
            resolved_url,
            outcome: HttpOutcome::Failed { error, transport_error },
        } => {
            law_answer_without_a_reply(
                plan@,
                resolved_url,
                error,
                transport_error,
                encoded@,
                "error"@,
            );
        },
        CallResult::Sent {
            resolved_url,
            outcome: HttpOutcome::Replied { summary, status_error },
        } => {
            law_answer_to_a_reply(plan@, resolved_url, summary, status_error, encoded@, "body"@);
        },
    }
    law_plain_members_are_read_back(bytes, envelope, "toolName"@, 0);
    law_plain_members_are_read_back(bytes, envelope, "profile"@, 0);
    law_plain_members_are_read_back(bytes, envelope, "url"@, 0);
    law_plain_members_are_read_back(bytes, envelope, "operation"@, 0);
    law_plain_members_are_read_back(bytes, envelope, "statusCode"@, 0);
    law_plain_members_are_read_back(bytes, envelope, "durationMs"@, 0);
    law_plain_members_are_read_back(bytes, envelope, "bodyTruncated"@, 0);
    law_plain_members_are_read_back(bytes, envelope, "hasGraphqlErrors"@, 0);
    law_plain_members_are_read_back(bytes, envelope, "body"@, 0);
    law_plain_members_are_read_back(bytes, envelope, "error"@, 0);
    law_plain_members_are_read_back(bytes, envelope, "downstreamError"@, 0);
    lemma_names_differ();
}

/// A gateway can read the answer, and reads all of it, where the error that was
/// written in and the body of the reply, if it is JSON, hold no fraction and
/// nest no more than 126 levels deep.
pub proof fn law_gateway_can_read_a_plain_answer(
    plan: ExecutionPlan,
    result: CallResult,
    encoded: Json,
    r: BackendResponse,
)
    requires
        call_ensures(ExecutionPlan::answer, (&plan, result, encoded), r),
        encoded@.plain_within(126),
    ensures
        match result {
            CallResult::Sent {
                outcome: HttpOutcome::Replied { summary, status_error },
                ..
            } => text_contents(summary.body@) is None || text_contents(
                summary.body@,
            )->0.plain_within(126) ==> bytes_contents(r.payload@) is Ok && {
                let read = bytes_contents(r.payload@)->Ok_0;
                &&& read is Object
                &&& text_contents(summary.body@) is Some ==> read->Object_0["response"@]
                    == text_contents(summary.body@)->0
                &&& text_contents(summary.body@) is None ==> read->Object_0["response"@]
                    == JsonView::Null
                &&& status_error is Some ==> read->Object_0["downstreamError"@] == encoded@
            },
            _ => bytes_contents(r.payload@) is Ok && bytes_contents(r.payload@)->Ok_0 is Object
                && bytes_contents(r.payload@)->Ok_0->Object_0["downstreamError"@] == encoded@,
        },
{
    lemma_names_differ();
}

} // verus!
