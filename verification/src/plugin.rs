//! The plugin: what it announces, and the profiles that are registered with it.

use vstd::prelude::*;

use crate::binding::RegistrationPlan;
use crate::call::{
    execution_of, payload_refusal, plan_call, read_variables, variables_of, ExecutionPlan,
    GraphqlProfile, GraphqlProfileView,
};
use crate::json::{members_view, put, Json, JsonMembers, JsonView};
use crate::protocol::{
    BackendError, BackendErrorView, BackendRequest, PluginClass, PluginManifest,
};
use crate::text::{is_blank, joined};

verus! {

/// The profiles of a plugin, by name.
pub type ProfilesView<N> = Map<Seq<char>, GraphqlProfileView<N>>;

/// What holds of every profile that is ever registered.
pub open spec fn profiles_acceptable<N>(profiles: ProfilesView<N>) -> bool {
    forall|name: Seq<char>| #[trigger]
        profiles.contains_key(name) ==> profiles[name].request.acceptable() && !is_blank(
            profiles[name].operation,
        )
}

/// The backend plugin for `kind: "graphql"`. `N` is the network runtime of a
/// profile.
pub struct GraphqlBackendPlugin<N> {
    manifest: PluginManifest,
    profiles: Vec<(String, GraphqlProfile<N>)>,
}

/// The entry at `i` is the one of the name.
spec fn entry_at<N>(entries: Seq<(String, GraphqlProfile<N>)>, name: Seq<char>, i: int) -> bool {
    0 <= i < entries.len() && entries[i].0@ == name
}

/// No name occurs twice.
spec fn names_distinct<N>(entries: Seq<(String, GraphqlProfile<N>)>) -> bool {
    forall|i: int, j: int| 0 <= i < j < entries.len() ==> entries[i].0@ != entries[j].0@
}

/// The map that a list of entries with distinct names stands for.
spec fn entries_view<N>(entries: Seq<(String, GraphqlProfile<N>)>) -> ProfilesView<N> {
    Map::new(
        |name: Seq<char>| exists|i: int| entry_at(entries, name, i),
        |name: Seq<char>| entries[choose|i: int| entry_at(entries, name, i)].1@,
    )
}

/// A list without entries stands for the empty map.
proof fn lemma_no_entries<N>(entries: Seq<(String, GraphqlProfile<N>)>)
    requires
        entries.len() == 0,
    ensures
        entries_view(entries) == ProfilesView::<N>::empty(),
{
    assert(forall|name: Seq<char>, i: int| !entry_at(entries, name, i));
    assert(entries_view(entries) =~= ProfilesView::<N>::empty());
}

/// An entry is found under its name.
proof fn lemma_entry_found<N>(entries: Seq<(String, GraphqlProfile<N>)>, name: Seq<char>, i: int)
    requires
        names_distinct(entries),
        entry_at(entries, name, i),
    ensures
        entries_view(entries).contains_key(name),
        entries_view(entries)[name] == entries[i].1@,
{
    let j = choose|j: int| entry_at(entries, name, j);
    assert(entry_at(entries, name, j));
    assert(j == i);
}

/// A list that differs from another in the entry of one name only stands for
/// the other's map with that name put anew.
proof fn lemma_entry_put<N>(
    before: Seq<(String, GraphqlProfile<N>)>,
    after: Seq<(String, GraphqlProfile<N>)>,
    name: Seq<char>,
    at: int,
)
    requires
        names_distinct(before),
        entry_at(after, name, at),
        after == before.push(after[at]) && at == before.len() && (forall|i: int|
            !entry_at(before, name, i)) || after == before.update(at, after[at]) && entry_at(
            before,
            name,
            at,
        ),
    ensures
        names_distinct(after),
        entries_view(after) == entries_view(before).insert(name, after[at].1@),
{
    assert forall|i: int, j: int| 0 <= i < j < after.len() implies after[i].0@ != after[j].0@ by {
        if i < before.len() {
            assert(!(i != at && entry_at(before, name, i)));
        }
        if j < before.len() {
            assert(!(j != at && entry_at(before, name, j)));
        }
    }
    lemma_entry_found(after, name, at);
    let expected = entries_view(before).insert(name, after[at].1@);
    assert forall|n: Seq<char>| #[trigger]
        entries_view(after).contains_key(n) == expected.contains_key(n) && (
    entries_view(after).contains_key(n) ==> entries_view(after)[n] == expected[n]) by {
        if n != name {
            if exists|i: int| entry_at(before, n, i) {
                let i = choose|i: int| entry_at(before, n, i);
                assert(entry_at(after, n, i));
                lemma_entry_found(after, n, i);
                lemma_entry_found(before, n, i);
            }
            if exists|i: int| entry_at(after, n, i) {
                let i = choose|i: int| entry_at(after, n, i);
                assert(entry_at(before, n, i));
            }
        }
    }
    assert(entries_view(after) =~= expected);
}

impl<N> View for GraphqlBackendPlugin<N> {
    type V = ProfilesView<N>;

    closed spec fn view(&self) -> ProfilesView<N> {
        entries_view(self.profiles@)
    }
}

impl<N> GraphqlBackendPlugin<N> {
    #[verifier::type_invariant]
    spec fn inv(self) -> bool {
        &&& self.manifest.id@ == "dev.mcpg.backend.graphql"@
        &&& self.manifest.name@ == "GraphQL Binding"@
        &&& self.manifest.class == PluginClass::Backend
        &&& names_distinct(self.profiles@)
        &&& profiles_acceptable(self@)
    }

    /// A plugin without profiles.
    pub fn new() -> (plugin: Self)
        ensures
            plugin@ == ProfilesView::<N>::empty(),
    {
        let profiles: Vec<(String, GraphqlProfile<N>)> = Vec::new();
        proof {
            lemma_no_entries(profiles@);
        }
        GraphqlBackendPlugin {
            manifest: PluginManifest {
                id: "dev.mcpg.backend.graphql".to_owned(),
                name: "GraphQL Binding".to_owned(),
                class: PluginClass::Backend,
            },
            profiles,
        }
    }

    /// How the plugin announces itself.
    pub fn manifest(&self) -> (r: &PluginManifest)
        ensures
            r.id@ == "dev.mcpg.backend.graphql"@,
            r.name@ == "GraphQL Binding"@,
            r.class == PluginClass::Backend,
    {
        proof {
            use_type_invariant(self);
        }
        &self.manifest
    }

    /// The kind of binding that the plugin serves.
    pub fn kind(&self) -> (r: &str)
        ensures
            r@ == "graphql"@,
    {
        "graphql"
    }

    /// What an audit record says of a backend of this plugin.
    pub fn audit_metadata(&self, _backend_name: &str) -> (r: Vec<(String, Json)>)
        ensures
            members_view(r@) == JsonMembers::empty().insert(
                "graphql.transport"@,
                JsonView::Text("plugin"@),
            ),
    {
        let mut members: Vec<(String, Json)> = Vec::new();
        put(&mut members, "graphql.transport", Json::from_text("plugin"));
        members
    }

    /// The position of the entry of a name.
    fn position(&self, backend_name: &str) -> (r: Option<usize>)
        ensures
            match r {
                Some(i) => entry_at(self.profiles@, backend_name@, i as int),
                None => forall|i: int| !entry_at(self.profiles@, backend_name@, i),
            },
    {
        let wanted = backend_name.to_owned();
        let mut i: usize = 0;
        while i < self.profiles.len()
            invariant
                i <= self.profiles@.len(),
                wanted@ == backend_name@,
                forall|k: int| 0 <= k < i ==> !entry_at(self.profiles@, backend_name@, k),
            decreases self.profiles@.len() - i,
        {
            if self.profiles[i].0 == wanted {
                return Some(i);
            }
            i += 1;
        }
        None
    }

    /// The profile that is registered under a name.
    pub fn profile(&self, backend_name: &str) -> (r: Option<&GraphqlProfile<N>>)
        ensures
            match r {
                Some(profile) => self@.contains_key(backend_name@) && profile@
                    == self@[backend_name@],
                None => !self@.contains_key(backend_name@),
            },
            profiles_acceptable(self@),
    {
        proof {
            use_type_invariant(self);
        }
        match self.position(backend_name) {
            Some(i) => {
                proof {
                    lemma_entry_found(self.profiles@, backend_name@, i as int);
                }
                Some(&self.profiles[i].1)
            },
            None => None,
        }
    }

    /// Registers a profile under a name, over the one that was there. `net` is
    /// the network runtime that was set up from the plan, or the message with
    /// which that failed.
    pub fn complete_registration(
        &mut self,
        backend_name: &str,
        plan: RegistrationPlan,
        net: Result<N, String>,
    ) -> (r: Result<(), BackendError>)
        ensures
            match (net, r) {
                (Ok(net), Ok(())) => final(self)@ == old(self)@.insert(
                    backend_name@,
                    GraphqlProfileView {
                        net,
                        request: plan@.request,
                        operation: plan@.operation,
                    },
                ),
                (Err(message), Err(e)) => final(self)@ == old(self)@ && e@ == (
                BackendErrorView::InvalidSpec { message: "GraphQL binding spec: "@ + message@ }),
                _ => false,
            },
            profiles_acceptable(final(self)@),
    {
        proof {
            use_type_invariant(&*self);
        }
        let net = match net {
            Ok(net) => net,
            Err(message) => {
                return Err(
                    BackendError::InvalidSpec {
                        message: joined("GraphQL binding spec: ", message.as_str()),
                    },
                );
            },
        };
        let found = self.position(backend_name);
        let (request, operation) = plan.into_parts();
        let entry = (backend_name.to_owned(), GraphqlProfile { net, request, operation });
        let ghost before = self.profiles@;
        let mut profiles: Vec<(String, GraphqlProfile<N>)> = Vec::new();
        proof {
            lemma_no_entries(profiles@);
        }
        std::mem::swap(&mut profiles, &mut self.profiles);
        match found {
            Some(i) => {
                profiles.set(i, entry);
                proof {
                    lemma_entry_put(before, profiles@, backend_name@, i as int);
                }
            },
            None => {
                profiles.push(entry);
                proof {
                    lemma_entry_put(before, profiles@, backend_name@, before.len() as int);
                }
            },
        }
        self.profiles = profiles;
        Ok(())
    }

    /// Plans a call: looks up the profile, reads the variables from the payload,
    /// and frames the request.
    pub fn plan_execute(&self, backend_name: &str, request: &BackendRequest) -> (r: Result<
        ExecutionPlan,
        BackendError,
    >)
        ensures
            match r {
                Ok(plan) => {
                    &&& self@.contains_key(backend_name@)
                    &&& variables_of(request@.payload) is Ok
                    &&& plan@ == execution_of(
                        backend_name@,
                        self@[backend_name@],
                        request@,
                        variables_of(request@.payload)->Ok_0,
                    )
                },
                Err(e) => if !self@.contains_key(backend_name@) {
                    e@ == (BackendErrorView::ProfileNotFound { backend_name: backend_name@ })
                } else {
                    &&& variables_of(request@.payload) is Err
                    &&& e@ == payload_refusal(variables_of(request@.payload)->Err_0)
                },
            },
    {
        match self.profile(backend_name) {
            Some(profile) => plan_call(
                backend_name,
                profile,
                request,
                read_variables(&request.payload),
            ),
            None => Err(BackendError::ProfileNotFound { backend_name: backend_name.to_owned() }),
        }
    }
}

impl<N> Default for GraphqlBackendPlugin<N> {
    fn default() -> (plugin: Self)
        ensures
            plugin@ == ProfilesView::<N>::empty(),
    {
        GraphqlBackendPlugin::new()
    }
}

} // verus!
