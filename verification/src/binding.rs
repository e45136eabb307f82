//! The binding spec that an operator writes: its defaults, the rules it is held
//! to, and the registration that follows from it.

use std::collections::BTreeMap;

use vstd::prelude::*;

use crate::json::{Json, JsonView};
use crate::protocol::{
    BackendError, BackendErrorView, HttpBackendMethod, HttpRequestProfile, HttpRequestProfileView,
};
use crate::text::{begins_with, blank, holds, is_blank, joined, occurs_in};

verus! {

/// The timeout of a call, where the spec gives none.
pub fn default_timeout_ms() -> (r: u64)
    ensures
        r == 2_000,
{
    2_000
}

/// The limit on a reply's size, where the spec gives none.
pub fn default_max_response_bytes() -> (r: usize)
    ensures
        r == 65_536,
{
    65_536
}

/// The one status that a GraphQL reply is expected to have.
pub const EXPECTED_STATUS_CODE: u16 = 200;

/// The fields of a binding spec as they were written: `None` where a field was
/// left out.
#[derive(Debug)]
pub struct GraphqlBackendSpecFields {
    pub url: String,
    pub operation: String,
    pub headers: Option<BTreeMap<String, String>>,
    pub timeout_ms: Option<u64>,
    pub max_response_bytes: Option<usize>,
    pub allow_private_backends: Option<bool>,
}

impl GraphqlBackendSpecFields {
    /// The timeout that counts: the one written, or two seconds.
    pub open spec fn effective_timeout_ms(&self) -> u64 {
        match self.timeout_ms {
            Some(n) => n,
            None => 2_000,
        }
    }

    /// The size limit that counts: the one written, or 64 KiB.
    pub open spec fn effective_max_response_bytes(&self) -> usize {
        match self.max_response_bytes {
            Some(n) => n,
            None => 65_536,
        }
    }

    /// Private backends are reached only where the spec says so.
    pub open spec fn effective_allow_private_backends(&self) -> bool {
        match self.allow_private_backends {
            Some(b) => b,
            None => false,
        }
    }

    /// The headers that count: the ones written, or none.
    pub open spec fn effective_headers(&self, headers: BTreeMap<String, String>) -> bool {
        match self.headers {
            Some(written) => headers == written,
            None => headers@.dom().is_empty(),
        }
    }

    /// The first rule that the spec breaks once its defaults are in.
    pub open spec fn fault(&self) -> Option<Seq<char>> {
        spec_fault(
            self.url@,
            self.operation@,
            self.effective_timeout_ms() as int,
            self.effective_max_response_bytes() as int,
        )
    }
}

/// A binding spec with every field in place.
#[derive(Debug)]
pub struct GraphqlBackendSpec {
    pub url: String,
    pub operation: String,
    pub headers: BTreeMap<String, String>,
    pub timeout_ms: u64,
    pub max_response_bytes: usize,
    pub allow_private_backends: bool,
}

impl GraphqlBackendSpec {
    /// Puts the defaults in for the fields that were left out.
    pub fn from_fields(fields: GraphqlBackendSpecFields) -> (spec: Self)
        ensures
            spec.url == fields.url,
            spec.operation == fields.operation,
            fields.effective_headers(spec.headers),
            spec.timeout_ms == fields.effective_timeout_ms(),
            spec.max_response_bytes == fields.effective_max_response_bytes(),
            spec.allow_private_backends == fields.effective_allow_private_backends(),
    {
        GraphqlBackendSpec {
            url: fields.url,
            operation: fields.operation,
            headers: match fields.headers {
                Some(headers) => headers,
                None => BTreeMap::new(),
            },
            timeout_ms: match fields.timeout_ms {
                Some(n) => n,
                None => default_timeout_ms(),
            },
            max_response_bytes: match fields.max_response_bytes {
                Some(n) => n,
                None => default_max_response_bytes(),
            },
            allow_private_backends: match fields.allow_private_backends {
                Some(b) => b,
                None => false,
            },
        }
    }
}

/// What the rules say against a spec: the first rule that it breaks, in the
/// order of the rules, or `None` for a spec that keeps them all.
pub open spec fn spec_fault(
    url: Seq<char>,
    operation: Seq<char>,
    timeout_ms: int,
    max_response_bytes: int,
) -> Option<Seq<char>> {
    if is_blank(url) {
        Some("url must not be empty"@)
    } else if !is_http_url(url) {
        Some("url must start with http:// or https://, got '"@ + url + "'"@)
    } else if is_blank(operation) {
        Some("operation must not be empty"@)
    } else if timeout_ms == 0 {
        Some("timeout_ms must be greater than 0"@)
    } else if max_response_bytes == 0 {
        Some("max_response_bytes must be greater than 0"@)
    } else if occurs_in(url, "cred://"@) {
        Some("url must not contain a cred:// reference"@)
    } else {
        None
    }
}

/// A URL of one of the two schemes that the binding speaks.
pub open spec fn is_http_url(url: Seq<char>) -> bool {
    "http://"@.is_prefix_of(url) || "https://"@.is_prefix_of(url)
}

fn invalid_spec(message: &str) -> (e: BackendError)
    ensures
        e@ == (BackendErrorView::InvalidSpec { message: message@ }),
{
    BackendError::InvalidSpec { message: message.to_owned() }
}

impl GraphqlBackendSpec {
    pub open spec fn fault(&self) -> Option<Seq<char>> {
        spec_fault(
            self.url@,
            self.operation@,
            self.timeout_ms as int,
            self.max_response_bytes as int,
        )
    }

    /// Holds the spec to the rules.
    pub fn validate(&self) -> (r: Result<(), BackendError>)
        ensures
            match r {
                Ok(()) => self.fault() is None,
                Err(e) => self.fault() is Some && e@ == (BackendErrorView::InvalidSpec {
                    message: self.fault()->0,
                }),
            },
    {
        if blank(self.url.as_str()) {
            return Err(invalid_spec("url must not be empty"));
        }
        if !begins_with(self.url.as_str(), "http://") && !begins_with(
            self.url.as_str(),
            "https://",
        ) {
            let mut message = joined(
                "url must start with http:// or https://, got '",
                self.url.as_str(),
            );
            message.append("'");
            return Err(BackendError::InvalidSpec { message });
        }
        if blank(self.operation.as_str()) {
            return Err(invalid_spec("operation must not be empty"));
        }
        if self.timeout_ms == 0 {
            return Err(invalid_spec("timeout_ms must be greater than 0"));
        }
        if self.max_response_bytes == 0 {
            return Err(invalid_spec("max_response_bytes must be greater than 0"));
        }
        // The URL is the plain target of the request. A credential that was
        // resolved into it would leak.
        if holds(self.url.as_str(), "cred://") {
            return Err(invalid_spec("url must not contain a cred:// reference"));
        }
        Ok(())
    }

    /// The request that the spec stands for: GraphQL always posts JSON and
    /// expects a JSON reply under status 200.
    pub open spec fn request(&self) -> HttpRequestProfileView {
        HttpRequestProfileView {
            url: self.url@,
            method: HttpBackendMethod::Post,
            headers: self.headers,
            expected_status_codes: seq![200u16],
            require_json_response: true,
            max_response_bytes: self.max_response_bytes,
            timeout_ms: self.timeout_ms,
            allow_private_backends: self.allow_private_backends,
        }
    }
}

impl HttpRequestProfileView {
    /// What holds of every request that is ever registered.
    pub open spec fn acceptable(self) -> bool {
        &&& is_http_url(self.url)
        &&& !occurs_in(self.url, "cred://"@)
        &&& self.method == HttpBackendMethod::Post
        &&& self.expected_status_codes == seq![200u16]
        &&& self.require_json_response
        &&& self.max_response_bytes > 0
        &&& self.timeout_ms > 0
    }
}

/// The texts among the elements of an array, in order.
pub open spec fn texts_among(items: Seq<JsonView>) -> Seq<Seq<char>> {
    items.filter_map(|item: JsonView| item.text())
}

/// The secret references that a spec lists, in order: the texts of the array
/// under `__mcpg_secret_refs`, where there is one.
pub open spec fn secret_refs_of(spec: JsonView) -> Seq<Seq<char>> {
    match spec.member("__mcpg_secret_refs"@) {
        Some(refs) => match refs.elements() {
            Some(items) => texts_among(items),
            None => Seq::empty(),
        },
        None => Seq::empty(),
    }
}

/// The characters of each string in a list.
pub open spec fn texts_view(texts: Seq<String>) -> Seq<Seq<char>> {
    texts.map_values(|s: String| s@)
}

/// The secret references that a spec lists.
pub fn secret_refs(spec: &Json) -> (r: Vec<String>)
    ensures
        texts_view(r@) == secret_refs_of(spec@),
{
    let mut refs: Vec<String> = Vec::new();
    let items = match spec.get("__mcpg_secret_refs") {
        Some(listed) => match listed.as_array() {
            Some(items) => items,
            None => {
                assert(texts_view(refs@) =~= Seq::empty());
                return refs;
            },
        },
        None => {
            assert(texts_view(refs@) =~= Seq::empty());
            return refs;
        },
    };
    let ghost views = Json::Array(*items)@->Array_0;
    assert(texts_view(refs@) =~= texts_among(views.take(0)));
    let mut i: usize = 0;
    while i < items.len()
        invariant
            i <= items@.len(),
            views == Json::Array(*items)@->Array_0,
            texts_view(refs@) == texts_among(views.take(i as int)),
        decreases items@.len() - i,
    {
        let ghost before = refs@;
        assert(views.take(i + 1).drop_last() =~= views.take(i as int));
        assert(views[i as int] == items@[i as int]@);
        match items[i].as_str() {
            Some(s) => {
                refs.push(s.to_owned());
                assert(texts_view(refs@) =~= texts_view(before).push(s@));
            },
            None => {},
        }
        i += 1;
    }
    assert(views.take(i as int) =~= views);
    refs
}

/// A registration that the rules allow: what the network runtime is set up
/// with, and the operation that every call will send.
#[derive(Debug)]
pub struct RegistrationPlan {
    request: HttpRequestProfile,
    secret_refs: Vec<String>,
    operation: String,
}

pub struct RegistrationPlanView {
    pub request: HttpRequestProfileView,
    pub secret_refs: Seq<Seq<char>>,
    pub operation: Seq<char>,
}

impl RegistrationPlanView {
    /// What holds of every plan.
    pub open spec fn acceptable(self) -> bool {
        self.request.acceptable() && !is_blank(self.operation)
    }
}

impl View for RegistrationPlan {
    type V = RegistrationPlanView;

    closed spec fn view(&self) -> RegistrationPlanView {
        RegistrationPlanView {
            request: self.request@,
            secret_refs: texts_view(self.secret_refs@),
            operation: self.operation@,
        }
    }
}

impl RegistrationPlan {
    #[verifier::type_invariant]
    spec fn inv(self) -> bool {
        self@.acceptable()
    }

    /// The request that is sent on a call.
    pub fn request(&self) -> (r: &HttpRequestProfile)
        ensures
            r@ == self@.request,
            self@.acceptable(),
    {
        proof {
            use_type_invariant(self);
        }
        &self.request
    }

    /// The secret references that the spec lists.
    pub fn secret_refs(&self) -> (r: &Vec<String>)
        ensures
            texts_view(r@) == self@.secret_refs,
    {
        &self.secret_refs
    }

    /// The GraphQL operation.
    pub fn operation(&self) -> (r: &str)
        ensures
            r@ == self@.operation,
    {
        self.operation.as_str()
    }

    /// The request and the operation, taken out of the plan.
    pub(crate) fn into_parts(self) -> (r: (HttpRequestProfile, String))
        ensures
            r.0@ == self@.request,
            r.1@ == self@.operation,
            self@.acceptable(),
    {
        proof {
            use_type_invariant(&self);
        }
        (self.request, self.operation)
    }
}

impl GraphqlBackendSpec {
    /// Holds the spec to the rules and plans its registration. `document` is
    /// the spec as it was written.
    pub fn plan(self, document: &Json) -> (r: Result<RegistrationPlan, BackendError>)
        ensures
            match r {
                Ok(plan) => self.fault() is None && plan@ == (RegistrationPlanView {
                    request: self.request(),
                    secret_refs: secret_refs_of(document@),
                    operation: self.operation@,
                }),
                Err(e) => self.fault() is Some && e@ == (BackendErrorView::InvalidSpec {
                    message: self.fault()->0,
                }),
            },
    {
        match self.validate() {
            Ok(()) => {},
            Err(e) => {
                return Err(e);
            },
        }
        let mut expected: Vec<u16> = Vec::new();
        expected.push(EXPECTED_STATUS_CODE);
        let request = HttpRequestProfile {
            url: self.url,
            method: HttpBackendMethod::Post,
            headers: self.headers,
            expected_status_codes: expected,
            require_json_response: true,
            max_response_bytes: self.max_response_bytes,
            timeout_ms: self.timeout_ms,
            allow_private_backends: self.allow_private_backends,
        };
        assert(request@.expected_status_codes =~= seq![200u16]);
        let refs = secret_refs(document);
        Ok(RegistrationPlan { request, secret_refs: refs, operation: self.operation })
    }
}

/// Plans the registration of a binding from the fields that were read from its
/// spec, or from the message with which reading them failed. `document` is the
/// spec as it was written.
pub fn plan_registration(
    fields: Result<GraphqlBackendSpecFields, String>,
    document: &Json,
) -> (r: Result<RegistrationPlan, BackendError>)
    ensures
        match (fields, r) {
            (Err(message), Err(e)) => e@ == (BackendErrorView::InvalidSpec {
                message: "GraphQL binding spec: "@ + message@,
            }),
            (Err(_), Ok(_)) => false,
            (Ok(fields), Err(e)) => fields.fault() is Some && e@ == (
            BackendErrorView::InvalidSpec { message: fields.fault()->0 }),
            (Ok(fields), Ok(plan)) => {
                &&& fields.fault() is None
                &&& fields.effective_headers(plan@.request.headers)
                &&& plan@ == (RegistrationPlanView {
                    request: HttpRequestProfileView {
                        url: fields.url@,
                        method: HttpBackendMethod::Post,
                        headers: plan@.request.headers,
                        expected_status_codes: seq![200u16],
                        require_json_response: true,
                        max_response_bytes: fields.effective_max_response_bytes(),
                        timeout_ms: fields.effective_timeout_ms(),
                        allow_private_backends: fields.effective_allow_private_backends(),
                    },
                    secret_refs: secret_refs_of(document@),
                    operation: fields.operation@,
                })
            },
        },
{
    match fields {
        Err(message) => Err(
            BackendError::InvalidSpec {
                message: joined("GraphQL binding spec: ", message.as_str()),
            },
        ),
        Ok(fields) => GraphqlBackendSpec::from_fields(fields).plan(document),
    }
}

} // verus!
