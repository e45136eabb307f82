//! What holds of a call, from its request to what is sent.

use vstd::prelude::*;

use super::{lemma_first_header_absent, lemma_first_header_at};
use crate::binding::RegistrationPlan;
use crate::call::{
    first_header, graphql_body, is_trace_header, plan_call, read_variables, tool_name, trace_headers,
    trace_headers_of, ExecutionPlan, GraphqlProfile,
};
use crate::codec::bytes_contents;
use crate::json::{Json, JsonView};
use crate::plugin::GraphqlBackendPlugin;
use crate::protocol::{
    headers_view, BackendError, BackendRequest, HeaderView, HttpRequestProfile,
};
use crate::text::same_ignoring_ascii_case;

verus! {

/// The variables of a call are its payload, read as JSON and taken whole. An
/// empty payload is an object without members.
pub proof fn law_variables_are_the_whole_payload(payload: Vec<u8>, r: Result<Json, String>)
    requires
        call_ensures(read_variables, (&payload,), r),
    ensures
        payload@.len() == 0 ==> r is Ok && r->Ok_0@ is Object
            && r->Ok_0@->Object_0.dom().is_empty(),
        payload@.len() > 0 ==> match bytes_contents(payload@) {
            Ok(json) => r is Ok && r->Ok_0@ == json,
            Err(reason) => r is Err && r->Err_0@ == reason,
        },
{
}

/// The body of a request has a `query`, which is the operation, and
/// `variables`, which are those given, and no other member.
pub proof fn law_body_has_query_and_variables(
    operation: &str,
    variables: Json,
    body: Json,
    name: Seq<char>,
)
    requires
        call_ensures(graphql_body, (operation, variables), body),
    ensures
        body@ is Object,
        body@->Object_0.contains_key(name) <==> name == "query"@ || name == "variables"@,
        body@->Object_0["query"@] == JsonView::Text(operation@),
        body@->Object_0["variables"@] == variables@,
{
    super::law_body_is_query_and_variables(operation@, variables@, name);
}

/// A call goes by the value of the first of its headers that is named
/// `mcpg-tool-name`, ASCII case aside, or else by the name of the backend.
pub proof fn law_call_goes_by_its_first_tool_name(
    backend_name: &str,
    headers: Vec<(String, String)>,
    at: int,
    r: String,
)
    requires
        call_ensures(tool_name, (backend_name, &headers), r),
    ensures
        0 <= at < headers@.len() && same_ignoring_ascii_case(headers@[at].0@, "mcpg-tool-name"@)
            && (forall|i: int|
            0 <= i < at ==> !same_ignoring_ascii_case(
                #[trigger] headers@[i].0@,
                "mcpg-tool-name"@,
            )) ==> r@ == headers@[at].1@,
        (forall|i: int|
            0 <= i < headers@.len() ==> !same_ignoring_ascii_case(
                #[trigger] headers@[i].0@,
                "mcpg-tool-name"@,
            )) ==> r@ == backend_name@,
{
    lemma_tool_name(headers@, at);
}

proof fn lemma_tool_name(headers: Seq<(String, String)>, at: int)
    ensures
        0 <= at < headers.len() && same_ignoring_ascii_case(headers[at].0@, "mcpg-tool-name"@) && (
        forall|i: int|
            0 <= i < at ==> !same_ignoring_ascii_case(#[trigger] headers[i].0@, "mcpg-tool-name"@))
            ==> first_header(headers_view(headers), "mcpg-tool-name"@) == Some(
            headers[at].1@,
        ),
        (forall|i: int|
            0 <= i < headers.len() ==> !same_ignoring_ascii_case(
                #[trigger] headers[i].0@,
                "mcpg-tool-name"@,
            )) ==> first_header(headers_view(headers), "mcpg-tool-name"@) is None,
{
    let views = headers_view(headers);
    assert forall|i: int| 0 <= i < headers.len() implies #[trigger] views[i].0 == headers[i].0@ by {
    }
    if 0 <= at < headers.len() && same_ignoring_ascii_case(headers[at].0@, "mcpg-tool-name"@) && (
    forall|i: int|
        0 <= i < at ==> !same_ignoring_ascii_case(#[trigger] headers[i].0@, "mcpg-tool-name"@)) {
        lemma_first_header_at(views, "mcpg-tool-name"@, at);
    }
    if forall|i: int|
        0 <= i < headers.len() ==> !same_ignoring_ascii_case(
            #[trigger] headers[i].0@,
            "mcpg-tool-name"@,
        ) {
        lemma_first_header_absent(views, "mcpg-tool-name"@);
    }
}

proof fn lemma_trace_headers(headers: Seq<(String, String)>)
    ensures
        trace_headers_of(headers_view(headers)) == headers.map_values(
            |h: (String, String)| (h.0@, h.1@),
        ).filter(
            |h: HeaderView|
                same_ignoring_ascii_case(h.0, "traceparent"@) || same_ignoring_ascii_case(
                    h.0,
                    "tracestate"@,
                ),
        ),
{
    let wanted = |h: HeaderView|
        same_ignoring_ascii_case(h.0, "traceparent"@) || same_ignoring_ascii_case(
            h.0,
            "tracestate"@,
        );
    assert((|h: HeaderView| is_trace_header(h.0)) =~= wanted);
    assert(headers_view(headers) =~= headers.map_values(|h: (String, String)| (h.0@, h.1@)));
}

/// The headers that travel with a call are those of its headers that are named
/// `traceparent` or `tracestate`, ASCII case aside, each with its value and in
/// their order.
pub proof fn law_trace_headers_travel_in_order(
    headers: Vec<(String, String)>,
    r: Vec<(String, String)>,
)
    requires
        call_ensures(trace_headers, (&headers,), r),
    ensures
        r@.map_values(|h: (String, String)| (h.0@, h.1@)) == headers@.map_values(
            |h: (String, String)| (h.0@, h.1@),
        ).filter(
            |h: HeaderView|
                same_ignoring_ascii_case(h.0, "traceparent"@) || same_ignoring_ascii_case(
                    h.0,
                    "tracestate"@,
                ),
        ),
{
    lemma_trace_headers(headers@);
    assert(headers_view(r@) =~= r@.map_values(|h: (String, String)| (h.0@, h.1@)));
}

/// One more header changes what travels by that header alone, at the end, and
/// only where it is a trace header.
pub proof fn law_one_more_header_travels_or_not(
    headers: Vec<(String, String)>,
    more: Vec<(String, String)>,
    header: (String, String),
    r: Vec<(String, String)>,
    s: Vec<(String, String)>,
)
    requires
        call_ensures(trace_headers, (&headers,), r),
        call_ensures(trace_headers, (&more,), s),
        more@ == headers@.push(header),
    ensures
        headers@.len() == 0 ==> r@.len() == 0,
        same_ignoring_ascii_case(header.0@, "traceparent"@) || same_ignoring_ascii_case(
            header.0@,
            "tracestate"@,
        ) ==> {
            &&& s@.len() == r@.len() + 1
            &&& s@.last().0@ == header.0@
            &&& s@.last().1@ == header.1@
        },
        !same_ignoring_ascii_case(header.0@, "traceparent"@) && !same_ignoring_ascii_case(
            header.0@,
            "tracestate"@,
        ) ==> s@.len() == r@.len(),
        forall|i: int|
            0 <= i < r@.len() ==> (#[trigger] s@[i]).0@ == r@[i].0@ && s@[i].1@ == r@[i].1@,
{
    reveal(Seq::filter);
    let views = headers_view(headers@);
    let wider = headers_view(more@);
    assert(wider.drop_last() =~= views);
    assert(wider.last() == (header.0@, header.1@));
    assert(headers_view(r@).len() == r@.len());
    assert(headers_view(s@).len() == s@.len());
    assert forall|i: int| 0 <= i < r@.len() implies (#[trigger] s@[i]).0@ == r@[i].0@ && s@[i].1@
        == r@[i].1@ by {
        assert(headers_view(r@)[i] == headers_view(s@)[i]);
        assert(headers_view(r@)[i] == (r@[i].0@, r@[i].1@));
        assert(headers_view(s@)[i] == (s@[i].0@, s@[i].1@));
    }
    if is_trace_header(header.0@) {
        assert(headers_view(s@).last() == (s@.last().0@, s@.last().1@));
    }
}

/// A planned call takes every part from where it belongs: the operation and the
/// URL from the profile, the variables as they were read, and the names, the
/// trace headers and the idempotency key from the request, whatever the other
/// parts are.
pub proof fn law_planned_call_takes_each_part_from_its_place<N>(
    backend_name: &str,
    profile: GraphqlProfile<N>,
    request: BackendRequest,
    variables: Result<Json, String>,
    r: Result<ExecutionPlan, BackendError>,
    at: int,
    member: Seq<char>,
)
    requires
        call_ensures(plan_call, (backend_name, &profile, &request, variables), r),
    ensures
        r is Ok <==> variables is Ok,
        r is Err ==> r->Err_0 is InvalidSpec && r->Err_0->message@
            == "GraphQL plugin payload is not valid JSON: "@ + variables->Err_0@,
        r is Ok ==> {
            let plan = r->Ok_0;
            &&& plan.backend_name@ == backend_name@
            &&& plan.profile_url@ == profile.request.url@
            &&& plan.operation@ == profile.operation@
            &&& plan.variables@ == variables->Ok_0@
            &&& plan.graphql_body@ is Object
            &&& plan.graphql_body@->Object_0.contains_key(member) <==> member == "query"@ || member
                == "variables"@
            &&& plan.graphql_body@->Object_0["query"@] == JsonView::Text(profile.operation@)
            &&& plan.graphql_body@->Object_0["variables"@] == variables->Ok_0@
            &&& plan.trace_headers@.map_values(|h: (String, String)| (h.0@, h.1@))
                == request.headers@.map_values(|h: (String, String)| (h.0@, h.1@)).filter(
                |h: HeaderView|
                    same_ignoring_ascii_case(h.0, "traceparent"@) || same_ignoring_ascii_case(
                        h.0,
                        "tracestate"@,
                    ),
            )
            &&& request.idempotency is None ==> plan.idempotency_key is None
            &&& request.idempotency is Some ==> plan.idempotency_key is Some
                && plan.idempotency_key->0@ == request.idempotency->0.key@
            &&& 0 <= at < request.headers@.len() && same_ignoring_ascii_case(
                request.headers@[at].0@,
                "mcpg-tool-name"@,
            ) && (forall|i: int|
                0 <= i < at ==> !same_ignoring_ascii_case(
                    #[trigger] request.headers@[i].0@,
                    "mcpg-tool-name"@,
                )) ==> plan.tool_name@ == request.headers@[at].1@
            &&& (forall|i: int|
                0 <= i < request.headers@.len() ==> !same_ignoring_ascii_case(
                    #[trigger] request.headers@[i].0@,
                    "mcpg-tool-name"@,
                )) ==> plan.tool_name@ == backend_name@
        },
{
    lemma_tool_name(request.headers@, at);
    lemma_trace_headers(request.headers@);
    if r is Ok {
        let plan = r->Ok_0;
        assert(headers_view(plan.trace_headers@) =~= plan.trace_headers@.map_values(
            |h: (String, String)| (h.0@, h.1@),
        ));
        super::law_body_is_query_and_variables(profile.operation@, variables->Ok_0@, member);
    }
}

/// A call is refused where no binding is registered under its name, and where
/// its payload is not empty and not JSON. Every other call is planned: with the
/// whole payload as the variables, the registered operation as the query, and
/// the names, the trace headers and the idempotency key of the request.
pub proof fn law_call_is_planned_from_profile_and_request<N>(
    plugin: GraphqlBackendPlugin<N>,
    backend_name: &str,
    request: BackendRequest,
    found: Option<&GraphqlProfile<N>>,
    r: Result<ExecutionPlan, BackendError>,
    at: int,
    member: Seq<char>,
)
    requires
        call_ensures(GraphqlBackendPlugin::<N>::profile, (&plugin, backend_name), found),
        call_ensures(GraphqlBackendPlugin::<N>::plan_execute, (&plugin, backend_name, &request), r),
    ensures
        found is None ==> r is Err && r->Err_0 is ProfileNotFound && r->Err_0->backend_name@
            == backend_name@,
        found is Some ==> (r is Ok <==> request.payload@.len() == 0 || bytes_contents(
            request.payload@,
        ) is Ok),
        found is Some && r is Err ==> r->Err_0 is InvalidSpec && r->Err_0->message@
            == "GraphQL plugin payload is not valid JSON: "@ + bytes_contents(
            request.payload@,
        )->Err_0,
        r is Ok ==> {
            let plan = r->Ok_0;
            let profile = found->0;
            &&& found is Some
            &&& plan.backend_name@ == backend_name@
            &&& plan.profile_url@ == profile.request.url@
            &&& plan.operation@ == profile.operation@
            &&& request.payload@.len() > 0 ==> bytes_contents(request.payload@)->Ok_0
                == plan.variables@
            &&& request.payload@.len() == 0 ==> plan.variables@ is Object
                && plan.variables@->Object_0.dom().is_empty()
            &&& plan.graphql_body@ is Object
            &&& plan.graphql_body@->Object_0.contains_key(member) <==> member == "query"@ || member
                == "variables"@
            &&& plan.graphql_body@->Object_0["query"@] == JsonView::Text(profile.operation@)
            &&& plan.graphql_body@->Object_0["variables"@] == plan.variables@
            &&& plan.trace_headers@.map_values(|h: (String, String)| (h.0@, h.1@))
                == request.headers@.map_values(|h: (String, String)| (h.0@, h.1@)).filter(
                |h: HeaderView|
                    same_ignoring_ascii_case(h.0, "traceparent"@) || same_ignoring_ascii_case(
                        h.0,
                        "tracestate"@,
                    ),
            )
            &&& request.idempotency is None ==> plan.idempotency_key is None
            &&& request.idempotency is Some ==> plan.idempotency_key is Some
                && plan.idempotency_key->0@ == request.idempotency->0.key@
            &&& 0 <= at < request.headers@.len() && same_ignoring_ascii_case(
                request.headers@[at].0@,
                "mcpg-tool-name"@,
            ) && (forall|i: int|
                0 <= i < at ==> !same_ignoring_ascii_case(
                    #[trigger] request.headers@[i].0@,
                    "mcpg-tool-name"@,
                )) ==> plan.tool_name@ == request.headers@[at].1@
            &&& (forall|i: int|
                0 <= i < request.headers@.len() ==> !same_ignoring_ascii_case(
                    #[trigger] request.headers@[i].0@,
                    "mcpg-tool-name"@,
                )) ==> plan.tool_name@ == backend_name@
        },
{
    lemma_tool_name(request.headers@, at);
    lemma_trace_headers(request.headers@);
    if r is Ok {
        let plan = r->Ok_0;
        assert(headers_view(plan.trace_headers@) =~= plan.trace_headers@.map_values(
            |h: (String, String)| (h.0@, h.1@),
        ));
        super::law_body_is_query_and_variables(found->0.operation@, plan.variables@, member);
    }
}

/// A call that follows a registration sends the operation that was registered,
/// and starts from the URL that was.
pub proof fn law_call_sends_what_was_registered<N>(
    plugin: &mut GraphqlBackendPlugin<N>,
    name: &str,
    plan: RegistrationPlan,
    net: N,
    registered: Result<(), BackendError>,
    http: &HttpRequestProfile,
    operation: &str,
    request: BackendRequest,
    call: ExecutionPlan,
)
    ensures
        call_ensures(
            GraphqlBackendPlugin::<N>::complete_registration,
            (plugin, name, plan, Ok(net)),
            registered,
        ) && call_ensures(RegistrationPlan::request, (&plan,), http) && call_ensures(
            RegistrationPlan::operation,
            (&plan,),
            operation,
        ) && call_ensures(
            GraphqlBackendPlugin::<N>::plan_execute,
            (&*final(plugin), name, &request),
            Ok(call),
        ) ==> {
            &&& call.operation@ == operation@
            &&& call.profile_url@ == http.url@
            &&& call.backend_name@ == name@
            &&& call.graphql_body@->Object_0["query"@] == JsonView::Text(operation@)
        },
{
    super::law_body_is_query_and_variables(operation@, call.variables@, "query"@);
}

/// Two calls of a binding with the same headers go by the same name and take the
/// same trace headers along, and two with the same payload send the same body,
/// whatever else differs.
pub proof fn law_parts_of_a_call_are_independent<N>(
    plugin: GraphqlBackendPlugin<N>,
    backend_name: &str,
    one: BackendRequest,
    two: BackendRequest,
    first: ExecutionPlan,
    second: ExecutionPlan,
)
    requires
        call_ensures(
            GraphqlBackendPlugin::<N>::plan_execute,
            (&plugin, backend_name, &one),
            Ok(first),
        ),
        call_ensures(
            GraphqlBackendPlugin::<N>::plan_execute,
            (&plugin, backend_name, &two),
            Ok(second),
        ),
    ensures
        one.headers@ == two.headers@ ==> first.tool_name@ == second.tool_name@,
        one.headers@ == two.headers@ ==> first.trace_headers@.map_values(
            |h: (String, String)| (h.0@, h.1@),
        ) == second.trace_headers@.map_values(|h: (String, String)| (h.0@, h.1@)),
        one.payload@ == two.payload@ ==> first.graphql_body@ == second.graphql_body@,
        one.payload@ == two.payload@ ==> first.variables@ == second.variables@,
        first.operation@ == second.operation@,
        first.profile_url@ == second.profile_url@,
{
    assert(headers_view(first.trace_headers@) =~= first.trace_headers@.map_values(
        |h: (String, String)| (h.0@, h.1@),
    ));
    assert(headers_view(second.trace_headers@) =~= second.trace_headers@.map_values(
        |h: (String, String)| (h.0@, h.1@),
    ));
}

} // verus!
