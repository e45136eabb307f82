//! What holds of a binding from its spec to its registration.

use vstd::prelude::*;

use super::values::{lemma_part_has_a_before_and_an_after, lemma_prefix_leaves_a_rest};
use crate::binding::{
    default_max_response_bytes, default_timeout_ms, plan_registration, secret_refs, texts_among,
    texts_view, GraphqlBackendSpec, GraphqlBackendSpecFields, RegistrationPlan,
};
use crate::call::GraphqlProfile;
use crate::json::{members_view, Json, JsonView};
use crate::plugin::GraphqlBackendPlugin;
use crate::protocol::{
    BackendError, HttpBackendMethod, HttpRequestProfile, PluginClass, PluginManifest,
};
use crate::text::is_white_space;

verus! {

/// A field that was written counts as it was written, and one that was left out
/// has its default: two seconds, 64 KiB, no private backends, no headers.
pub proof fn law_written_fields_are_kept(
    fields: GraphqlBackendSpecFields,
    spec: GraphqlBackendSpec,
    timeout_ms: u64,
    max_response_bytes: usize,
)
    requires
        call_ensures(GraphqlBackendSpec::from_fields, (fields,), spec),
        call_ensures(default_timeout_ms, (), timeout_ms),
        call_ensures(default_max_response_bytes, (), max_response_bytes),
    ensures
        spec.url@ == fields.url@,
        spec.operation@ == fields.operation@,
        fields.headers is Some ==> spec.headers == fields.headers->0,
        fields.headers is None ==> forall|name: String| !spec.headers@.contains_key(name),
        fields.timeout_ms is Some ==> spec.timeout_ms == fields.timeout_ms->0,
        fields.timeout_ms is None ==> spec.timeout_ms == 2_000 && spec.timeout_ms == timeout_ms,
        fields.max_response_bytes is Some ==> spec.max_response_bytes
            == fields.max_response_bytes->0,
        fields.max_response_bytes is None ==> spec.max_response_bytes == 65_536
            && spec.max_response_bytes == max_response_bytes,
        fields.allow_private_backends == Some(true) ==> spec.allow_private_backends,
        fields.allow_private_backends == Some(false) ==> !spec.allow_private_backends,
        fields.allow_private_backends is None ==> !spec.allow_private_backends,
{
}

/// The request that a binding is registered with says what the spec says, field
/// by field, and posts JSON for a JSON reply under status 200. The operation is
/// that of the spec.
pub proof fn law_registered_request_is_what_was_written(
    fields: GraphqlBackendSpecFields,
    document: Json,
    plan: RegistrationPlan,
    request: &HttpRequestProfile,
    operation: &str,
)
    requires
        call_ensures(plan_registration, (Ok(fields), &document), Ok(plan)),
        call_ensures(RegistrationPlan::request, (&plan,), request),
        call_ensures(RegistrationPlan::operation, (&plan,), operation),
    ensures
        operation@ == fields.operation@,
        request.url@ == fields.url@,
        request.method == HttpBackendMethod::Post,
        request.expected_status_codes@.len() == 1,
        request.expected_status_codes@[0] == 200,
        request.require_json_response,
        fields.headers is Some ==> request.headers == fields.headers->0,
        fields.headers is None ==> forall|name: String| !request.headers@.contains_key(name),
        fields.timeout_ms is Some ==> request.timeout_ms == fields.timeout_ms->0,
        fields.timeout_ms is None ==> request.timeout_ms == 2_000,
        fields.max_response_bytes is Some ==> request.max_response_bytes
            == fields.max_response_bytes->0,
        fields.max_response_bytes is None ==> request.max_response_bytes == 65_536,
        fields.allow_private_backends == Some(true) ==> request.allow_private_backends,
        fields.allow_private_backends == Some(false) ==> !request.allow_private_backends,
        fields.allow_private_backends is None ==> !request.allow_private_backends,
{
}

/// A complete spec is planned with the values that it has.
pub proof fn law_complete_spec_is_planned_as_it_is(
    spec: GraphqlBackendSpec,
    document: Json,
    plan: RegistrationPlan,
    request: &HttpRequestProfile,
    operation: &str,
)
    requires
        call_ensures(GraphqlBackendSpec::plan, (spec, &document), Ok(plan)),
        call_ensures(RegistrationPlan::request, (&plan,), request),
        call_ensures(RegistrationPlan::operation, (&plan,), operation),
    ensures
        operation@ == spec.operation@,
        request.url@ == spec.url@,
        request.method == HttpBackendMethod::Post,
        request.headers == spec.headers,
        request.expected_status_codes@.len() == 1,
        request.expected_status_codes@[0] == 200,
        request.require_json_response,
        request.max_response_bytes == spec.max_response_bytes,
        request.timeout_ms == spec.timeout_ms,
        request.allow_private_backends == spec.allow_private_backends,
{
}

/// A binding is accepted exactly when its URL is `http://` or `https://` and
/// some rest, no part of the URL is `cred://`, the operation has a character
/// that is not white space, and no limit was written as zero.
pub proof fn law_binding_accepted_iff_every_rule_kept(
    fields: GraphqlBackendSpecFields,
    document: Json,
    r: Result<RegistrationPlan, BackendError>,
)
    requires
        call_ensures(plan_registration, (Ok(fields), &document), r),
    ensures
        r is Ok <==> {
            &&& (exists|rest: Seq<char>| fields.url@ == #[trigger] "http://"@.add(rest)) || (exists|
                rest: Seq<char>,
            |
                fields.url@ == #[trigger] "https://"@.add(rest))
            &&& !exists|before: Seq<char>, after: Seq<char>|
                fields.url@ == #[trigger] before.add("cred://"@).add(after)
            &&& exists|i: int|
                0 <= i < fields.operation@.len() && !is_white_space(
                    #[trigger] fields.operation@[i],
                )
            &&& fields.timeout_ms != Some(0u64)
            &&& fields.max_response_bytes != Some(0usize)
        },
{
    lemma_prefix_leaves_a_rest(fields.url@, "http://"@);
    lemma_prefix_leaves_a_rest(fields.url@, "https://"@);
    lemma_part_has_a_before_and_an_after(fields.url@, "cred://"@);
    super::law_spec_accepted_iff_every_rule_kept(
        fields.url@,
        fields.operation@,
        fields.effective_timeout_ms() as int,
        fields.effective_max_response_bytes() as int,
    );
}

/// A complete spec is accepted by the same rules, whether it is only held to
/// them or planned.
pub proof fn law_complete_spec_accepted_iff_every_rule_kept(
    spec: GraphqlBackendSpec,
    document: Json,
    valid: Result<(), BackendError>,
    planned: Result<RegistrationPlan, BackendError>,
)
    requires
        call_ensures(GraphqlBackendSpec::validate, (&spec,), valid),
        call_ensures(GraphqlBackendSpec::plan, (spec, &document), planned),
    ensures
        valid is Ok <==> planned is Ok,
        valid is Err ==> valid->Err_0@ == planned->Err_0@,
        valid is Ok <==> {
            &&& (exists|rest: Seq<char>| spec.url@ == #[trigger] "http://"@.add(rest)) || (exists|
                rest: Seq<char>,
            |
                spec.url@ == #[trigger] "https://"@.add(rest))
            &&& !exists|before: Seq<char>, after: Seq<char>|
                spec.url@ == #[trigger] before.add("cred://"@).add(after)
            &&& exists|i: int|
                0 <= i < spec.operation@.len() && !is_white_space(#[trigger] spec.operation@[i])
            &&& spec.timeout_ms > 0
            &&& spec.max_response_bytes > 0
        },
{
    lemma_prefix_leaves_a_rest(spec.url@, "http://"@);
    lemma_prefix_leaves_a_rest(spec.url@, "https://"@);
    lemma_part_has_a_before_and_an_after(spec.url@, "cred://"@);
    super::law_spec_accepted_iff_every_rule_kept(
        spec.url@,
        spec.operation@,
        spec.timeout_ms as int,
        spec.max_response_bytes as int,
    );
}

/// A binding that is refused is refused as an invalid spec, with the message of
/// the first rule that it breaks: an empty URL, another scheme, an empty
/// operation, a zero timeout, a zero size, a credential in the URL.
pub proof fn law_refusal_names_the_first_broken_rule(
    fields: GraphqlBackendSpecFields,
    document: Json,
    e: BackendError,
)
    requires
        call_ensures(plan_registration, (Ok(fields), &document), Err(e)),
    ensures
        e is InvalidSpec,
        ({
            let message = e->message@;
            let url = fields.url@;
            let operation = fields.operation@;
            let empty_url = forall|i: int|
                0 <= i < url.len() ==> is_white_space(#[trigger] url[i]);
            let known_scheme = (exists|rest: Seq<char>| url == #[trigger] "http://"@.add(rest)) || (
            exists|rest: Seq<char>| url == #[trigger] "https://"@.add(rest));
            let empty_operation = forall|i: int|
                0 <= i < operation.len() ==> is_white_space(#[trigger] operation[i]);
            let zero_timeout = fields.timeout_ms == Some(0u64);
            let zero_size = fields.max_response_bytes == Some(0usize);
            &&& empty_url ==> message == "url must not be empty"@
            &&& !empty_url && !known_scheme ==> message
                == "url must start with http:// or https://, got '"@ + url + "'"@
            &&& !empty_url && known_scheme && empty_operation ==> message
                == "operation must not be empty"@
            &&& !empty_url && known_scheme && !empty_operation && zero_timeout ==> message
                == "timeout_ms must be greater than 0"@
            &&& !empty_url && known_scheme && !empty_operation && !zero_timeout && zero_size
                ==> message == "max_response_bytes must be greater than 0"@
            &&& !empty_url && known_scheme && !empty_operation && !zero_timeout && !zero_size
                ==> message == "url must not contain a cred:// reference"@
        }),
{
    lemma_prefix_leaves_a_rest(fields.url@, "http://"@);
    lemma_prefix_leaves_a_rest(fields.url@, "https://"@);
}

/// A spec that could not be read is refused with the reason.
pub proof fn law_unreadable_spec_is_refused(
    reason: String,
    document: Json,
    r: Result<RegistrationPlan, BackendError>,
)
    requires
        call_ensures(plan_registration, (Err(reason), &document), r),
    ensures
        r is Err,
        r->Err_0 is InvalidSpec,
        r->Err_0->message@ == "GraphQL binding spec: "@ + reason@,
{
}

proof fn lemma_texts_are_the_text_elements(items: Seq<JsonView>)
    ensures
        texts_among(items) == items.filter(|item: JsonView| item is Text).map_values(
            |item: JsonView| item->Text_0,
        ),
    decreases items.len(),
{
    let is_text = |item: JsonView| item is Text;
    let held = |item: JsonView| item->Text_0;
    reveal(Seq::filter);
    reveal(Seq::filter_map);
    if items.len() > 0 {
        lemma_texts_are_the_text_elements(items.drop_last());
        let kept = items.drop_last().filter(is_text);
        if items.last() is Text {
            assert(kept.push(items.last()).map_values(held) =~= kept.map_values(held).push(
                held(items.last()),
            ));
            assert(texts_among(items) =~= texts_among(items.drop_last()).push(
                held(items.last()),
            ));
        } else {
            assert(texts_among(items) =~= texts_among(items.drop_last()));
        }
    } else {
        assert(texts_among(items) =~= Seq::empty());
        assert(items.filter(is_text).map_values(held) =~= Seq::empty());
    }
}

/// The secret references of a spec are the texts in its `__mcpg_secret_refs`
/// array, all of them and in order; a spec without such an array has none. A
/// registration takes them over.
pub proof fn law_secret_refs_are_the_listed_texts(
    document: Json,
    refs: Vec<String>,
    fields: GraphqlBackendSpecFields,
    plan: RegistrationPlan,
    planned: &Vec<String>,
)
    ensures
        call_ensures(secret_refs, (&document,), refs) ==> match document@ {
            JsonView::Object(members) => if members.contains_key("__mcpg_secret_refs"@)
                && members["__mcpg_secret_refs"@] is Array {
                refs@.map_values(|s: String| s@)
                    == members["__mcpg_secret_refs"@]->Array_0.filter(
                    |item: JsonView| item is Text,
                ).map_values(|item: JsonView| item->Text_0)
            } else {
                refs@.len() == 0
            },
            _ => refs@.len() == 0,
        },
        call_ensures(secret_refs, (&document,), refs) && call_ensures(
            plan_registration,
            (Ok(fields), &document),
            Ok(plan),
        ) && call_ensures(RegistrationPlan::secret_refs, (&plan,), planned) ==> planned@.map_values(
            |s: String| s@,
        ) == refs@.map_values(|s: String| s@),
{
    let seen = |s: String| s@;
    assert(texts_view(refs@) =~= refs@.map_values(seen));
    assert(texts_view(planned@) =~= planned@.map_values(seen));
    assert(texts_view(refs@).len() == refs@.len());
    match document@ {
        JsonView::Object(members) => {
            if members.contains_key("__mcpg_secret_refs"@) && members["__mcpg_secret_refs"@] is Array {
                lemma_texts_are_the_text_elements(members["__mcpg_secret_refs"@]->Array_0);
            }
        },
        _ => {},
    }
}

/// A binding that was registered is found under its name, with the request, the
/// operation and the runtime that it was registered with.
pub proof fn law_registered_binding_is_found<N>(
    plugin: &mut GraphqlBackendPlugin<N>,
    name: &str,
    plan: RegistrationPlan,
    net: N,
    r: Result<(), BackendError>,
    request: &HttpRequestProfile,
    operation: &str,
    found: Option<&GraphqlProfile<N>>,
)
    ensures
        call_ensures(
            GraphqlBackendPlugin::<N>::complete_registration,
            (plugin, name, plan, Ok(net)),
            r,
        ) && call_ensures(RegistrationPlan::request, (&plan,), request) && call_ensures(
            RegistrationPlan::operation,
            (&plan,),
            operation,
        ) && call_ensures(GraphqlBackendPlugin::<N>::profile, (&*final(plugin), name), found) ==> {
            &&& r is Ok
            &&& found is Some
            &&& found->0.net == net
            &&& found->0.operation@ == operation@
            &&& found->0.request.url@ == request.url@
            &&& found->0.request.method == request.method
            &&& found->0.request.headers == request.headers
            &&& found->0.request.expected_status_codes@ == request.expected_status_codes@
            &&& found->0.request.require_json_response == request.require_json_response
            &&& found->0.request.max_response_bytes == request.max_response_bytes
            &&& found->0.request.timeout_ms == request.timeout_ms
            &&& found->0.request.allow_private_backends == request.allow_private_backends
        },
{
}

/// A registration leaves every other name as it was, and one whose runtime could
/// not be set up leaves all names as they were and is refused with the reason.
pub proof fn law_registration_leaves_the_rest<N>(
    plugin: &mut GraphqlBackendPlugin<N>,
    name: &str,
    plan: RegistrationPlan,
    net: Result<N, String>,
    r: Result<(), BackendError>,
    other: &str,
    before: Option<&GraphqlProfile<N>>,
    after: Option<&GraphqlProfile<N>>,
)
    ensures
        call_ensures(
            GraphqlBackendPlugin::<N>::complete_registration,
            (plugin, name, plan, net),
            r,
        ) && call_ensures(GraphqlBackendPlugin::<N>::profile, (&*old(plugin), other), before)
            && call_ensures(GraphqlBackendPlugin::<N>::profile, (&*final(plugin), other), after)
            ==> {
            &&& r is Ok <==> net is Ok
            &&& net is Err ==> r->Err_0 is InvalidSpec && r->Err_0->message@
                == "GraphQL binding spec: "@ + net->Err_0@
            &&& other@ != name@ || net is Err ==> {
                &&& before is Some <==> after is Some
                &&& before is Some ==> {
                    &&& after->0.net == before->0.net
                    &&& after->0.operation@ == before->0.operation@
                    &&& after->0.request@ == before->0.request@
                }
            }
        },
{
}

/// Every binding that is found keeps the rules: it posts JSON to an `http://` or
/// `https://` URL without `cred://`, expects a JSON reply under status 200, has
/// limits above zero, and sends an operation that is not blank.
pub proof fn law_found_binding_keeps_the_rules<N>(
    plugin: GraphqlBackendPlugin<N>,
    name: &str,
    found: Option<&GraphqlProfile<N>>,
)
    requires
        call_ensures(GraphqlBackendPlugin::<N>::profile, (&plugin, name), found),
    ensures
        found is Some ==> {
            let request = found->0.request;
            &&& (exists|rest: Seq<char>| request.url@ == #[trigger] "http://"@.add(rest)) || (
            exists|rest: Seq<char>| request.url@ == #[trigger] "https://"@.add(rest))
            &&& !exists|before: Seq<char>, after: Seq<char>|
                request.url@ == #[trigger] before.add("cred://"@).add(after)
            &&& request.method == HttpBackendMethod::Post
            &&& request.expected_status_codes@.len() == 1
            &&& request.expected_status_codes@[0] == 200
            &&& request.require_json_response
            &&& request.max_response_bytes > 0
            &&& request.timeout_ms > 0
            &&& exists|i: int|
                0 <= i < found->0.operation@.len() && !is_white_space(
                    #[trigger] found->0.operation@[i],
                )
        },
{
    if found is Some {
        let url = found->0.request.url@;
        lemma_prefix_leaves_a_rest(url, "http://"@);
        lemma_prefix_leaves_a_rest(url, "https://"@);
        lemma_part_has_a_before_and_an_after(url, "cred://"@);
    }
}

/// A new plugin has no binding under any name.
pub proof fn law_new_plugin_has_no_binding<N>(
    plugin: GraphqlBackendPlugin<N>,
    name: &str,
    found: Option<&GraphqlProfile<N>>,
)
    ensures
        (call_ensures(GraphqlBackendPlugin::<N>::new, (), plugin) || call_ensures(
            GraphqlBackendPlugin::<N>::default,
            (),
            plugin,
        )) && call_ensures(GraphqlBackendPlugin::<N>::profile, (&plugin, name), found)
            ==> found is None,
{
}

/// The plugin announces itself the same way, whatever is registered with it.
pub proof fn law_plugin_announces_itself<N>(
    plugin: GraphqlBackendPlugin<N>,
    manifest: &PluginManifest,
    kind: &str,
    name: &str,
    audit: Vec<(String, Json)>,
    member: Seq<char>,
)
    requires
        call_ensures(GraphqlBackendPlugin::<N>::manifest, (&plugin,), manifest),
        call_ensures(GraphqlBackendPlugin::<N>::kind, (&plugin,), kind),
        call_ensures(GraphqlBackendPlugin::<N>::audit_metadata, (&plugin, name), audit),
    ensures
        manifest.id@ == "dev.mcpg.backend.graphql"@,
        manifest.name@ == "GraphQL Binding"@,
        manifest.class == PluginClass::Backend,
        kind@ == "graphql"@,
        members_view(audit@).contains_key(member) <==> member == "graphql.transport"@,
        members_view(audit@)["graphql.transport"@] == JsonView::Text("plugin"@),
{
}

} // verus!
