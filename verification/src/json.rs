//! JSON values: the executable tree the library reads and builds, and the
//! mathematical tree its contracts speak of.

use vstd::prelude::*;

use crate::codec::{number_clone, number_integer};

verus! {

/// A JSON value.
///
/// An integer is read as `Unsigned` from zero up and as `Signed` below, any
/// other number as `Number`. An object is the list of its members; where a name
/// occurs more than once the last member counts.
#[derive(Debug, PartialEq)]
pub enum Json {
    Null,
    Bool(bool),
    Unsigned(u64),
    Signed(i64),
    Number(serde_json::Number),
    Text(String),
    Array(Vec<Json>),
    Object(Vec<(String, Json)>),
}

/// What a JSON value says, whatever holds it.
pub enum JsonView {
    Null,
    Bool(bool),
    Integer(int),
    Fraction(serde_json::Number),
    Text(Seq<char>),
    Array(Seq<JsonView>),
    Object(Map<Seq<char>, JsonView>),
}

/// The members of an object, by name.
pub type JsonMembers = Map<Seq<char>, JsonView>;

/// What a number says: an integer by its value, any other number as it is.
pub open spec fn number_view(n: serde_json::Number) -> JsonView {
    match number_integer(n) {
        Some(i) => JsonView::Integer(i),
        None => JsonView::Fraction(n),
    }
}

pub open spec fn json_view(json: Json) -> JsonView
    decreases json,
{
    match json {
        Json::Null => JsonView::Null,
        Json::Bool(b) => JsonView::Bool(b),
        Json::Unsigned(n) => JsonView::Integer(n as int),
        Json::Signed(n) => JsonView::Integer(n as int),
        Json::Number(n) => number_view(n),
        Json::Text(s) => JsonView::Text(s@),
        Json::Array(items) => JsonView::Array(
            Seq::new(
                items@.len(),
                |i: int|
                    if 0 <= i < items@.len() {
                        json_view(items@[i])
                    } else {
                        JsonView::Null
                    },
            ),
        ),
        Json::Object(members) => JsonView::Object(members_view(members@)),
    }
}

/// The map that a list of members stands for: each member is put in turn, so
/// that the last one of a name stays.
pub open spec fn members_view(members: Seq<(String, Json)>) -> JsonMembers
    decreases members,
{
    if members.len() == 0 {
        Map::empty()
    } else {
        members_view(members.drop_last()).insert(members.last().0@, json_view(members.last().1))
    }
}

/// An element is smaller than its array.
pub proof fn lemma_element_smaller(items: Vec<Json>, i: int)
    requires
        0 <= i < items@.len(),
    ensures
        decreases_to!(Json::Array(items) => items@[i]),
{
    let json = Json::Array(items);
    assert(decreases_to!(json => json->Array_0));
    assert(decreases_to!(items => items@));
    assert(decreases_to!(items@ => items@[i]));
}

/// The value of a member is smaller than its object.
pub proof fn lemma_member_smaller(members: Vec<(String, Json)>, i: int)
    requires
        0 <= i < members@.len(),
    ensures
        decreases_to!(Json::Object(members) => members@[i].1),
{
    let json = Json::Object(members);
    assert(decreases_to!(json => json->Object_0));
    assert(decreases_to!(members => members@));
    assert(decreases_to!(members@ => members@[i]));
    assert(decreases_to!(members@[i] => members@[i].1));
}

impl View for Json {
    type V = JsonView;

    open spec fn view(&self) -> JsonView {
        json_view(*self)
    }
}

/// What an optional JSON value says.
pub open spec fn option_view(json: Option<Json>) -> Option<JsonView> {
    match json {
        Some(json) => Some(json@),
        None => None,
    }
}

/// Every member of an object is plain within `levels`.
pub open spec fn members_plain_within(members: JsonMembers, levels: nat) -> bool {
    forall|name: Seq<char>| #[trigger]
        members.contains_key(name) ==> members[name].plain_within(levels)
}

impl JsonView {
    /// The member of an object under a name; `None` where there is none, and
    /// on a value that is not an object.
    pub open spec fn member(self, name: Seq<char>) -> Option<JsonView> {
        match self {
            JsonView::Object(members) if members.contains_key(name) => Some(members[name]),
            _ => None,
        }
    }

    /// The elements of an array; `None` on any other value.
    pub open spec fn elements(self) -> Option<Seq<JsonView>> {
        match self {
            JsonView::Array(items) => Some(items),
            _ => None,
        }
    }

    /// The value holds no number but integers, and its arrays and objects nest
    /// at most `levels` deep.
    pub open spec fn plain_within(self, levels: nat) -> bool
        decreases levels,
    {
        match self {
            JsonView::Fraction(_) => false,
            JsonView::Array(items) => levels > 0 && forall|i: int|
                0 <= i < items.len() ==> (#[trigger] items[i]).plain_within((levels - 1) as nat),
            JsonView::Object(members) => levels > 0 && forall|name: Seq<char>| #[trigger]
                members.contains_key(name) ==> members[name].plain_within((levels - 1) as nat),
            _ => true,
        }
    }

    /// The two values say the same, but that where one holds a fraction the
    /// other may hold another fraction.
    pub open spec fn same_but_for_fractions(self, other: JsonView) -> bool
        decreases self,
    {
        match (self, other) {
            (JsonView::Fraction(_), JsonView::Fraction(_)) => true,
            (JsonView::Array(items), JsonView::Array(others)) => items.len() == others.len()
                && forall|i: int|
                0 <= i < items.len() ==> (#[trigger] items[i]).same_but_for_fractions(others[i]),
            (JsonView::Object(members), JsonView::Object(others)) => members.dom() == others.dom()
                && forall|name: Seq<char>| #[trigger]
                members.contains_key(name) ==> members[name].same_but_for_fractions(others[name]),
            _ => self == other,
        }
    }

    /// The characters of a text; `None` on any other value.
    pub open spec fn text(self) -> Option<Seq<char>> {
        match self {
            JsonView::Text(s) => Some(s),
            _ => None,
        }
    }
}

/// The view of one more member put at the end.
pub proof fn lemma_members_push(members: Seq<(String, Json)>, member: (String, Json))
    ensures
        members_view(members.push(member)) == members_view(members).insert(member.0@, member.1@),
{
    assert(members.push(member).drop_last() =~= members);
}

/// Puts a member at the end of a list of members.
pub fn put(members: &mut Vec<(String, Json)>, name: &str, value: Json)
    ensures
        members_view(final(members)@) == members_view(old(members)@).insert(name@, value@),
{
    let member = (name.to_owned(), value);
    proof {
        lemma_members_push(members@, member);
    }
    members.push(member);
}

/// A value without fractions leaves no room for another that says the same but
/// for fractions.
pub proof fn lemma_plain_is_the_same(json: JsonView, other: JsonView, levels: nat)
    requires
        json.plain_within(levels),
        json.same_but_for_fractions(other),
    ensures
        other == json,
    decreases levels,
{
    match (json, other) {
        (JsonView::Array(items), JsonView::Array(others)) => {
            assert forall|i: int| 0 <= i < items.len() implies #[trigger] items[i] == others[i] by {
                lemma_plain_is_the_same(items[i], others[i], (levels - 1) as nat);
            }
            assert(items =~= others);
        },
        (JsonView::Object(members), JsonView::Object(others)) => {
            assert forall|name: Seq<char>| #[trigger]
                members.contains_key(name) implies members[name] == others[name] by {
                lemma_plain_is_the_same(members[name], others[name], (levels - 1) as nat);
            }
            assert(members =~= others);
        },
        _ => {},
    }
}

impl Json {
    /// The text that a string holds.
    pub fn from_text(s: &str) -> (json: Json)
        ensures
            json@ == JsonView::Text(s@),
    {
        Json::Text(s.to_owned())
    }

    /// The member under `name`, where the value is an object that has one.
    pub fn get(&self, name: &str) -> (r: Option<&Json>)
        ensures
            match r {
                Some(json) => self@.member(name@) == Some(json@),
                None => self@.member(name@) is None,
            },
    {
        match self {
            Json::Object(members) => find_member(members, name),
            _ => None,
        }
    }

    /// The elements, where the value is an array.
    pub fn as_array(&self) -> (r: Option<&Vec<Json>>)
        ensures
            match r {
                Some(items) => *self == Json::Array(*items),
                None => self@.elements() is None,
            },
    {
        match self {
            Json::Array(items) => Some(items),
            _ => None,
        }
    }

    /// The text, where the value is one.
    pub fn as_str(&self) -> (r: Option<&str>)
        ensures
            match r {
                Some(s) => self@.text() == Some(s@),
                None => self@.text() is None,
            },
    {
        match self {
            Json::Text(s) => Some(s.as_str()),
            _ => None,
        }
    }

    /// Whether the value is `null`.
    pub fn is_null(&self) -> (r: bool)
        ensures
            r == (self@ == JsonView::Null),
    {
        match self {
            Json::Null => true,
            _ => false,
        }
    }
}

/// The last member under `name`.
fn find_member<'a>(members: &'a Vec<(String, Json)>, name: &str) -> (r: Option<&'a Json>)
    ensures
        match r {
            Some(json) => members_view(members@).contains_key(name@) && members_view(
                members@,
            )[name@] == json@,
            None => !members_view(members@).contains_key(name@),
        },
{
    let wanted = name.to_owned();
    let mut found: Option<&'a Json> = None;
    let mut i: usize = 0;
    while i < members.len()
        invariant
            i <= members@.len(),
            wanted@ == name@,
            match found {
                Some(json) => members_view(members@.take(i as int)).contains_key(name@)
                    && members_view(members@.take(i as int))[name@] == json@,
                None => !members_view(members@.take(i as int)).contains_key(name@),
            },
        decreases members@.len() - i,
    {
        let member = &members[i];
        if member.0 == wanted {
            found = Some(&member.1);
        }
        assert(members@.take(i + 1).drop_last() =~= members@.take(i as int));
        i += 1;
    }
    assert(members@.take(i as int) =~= members@);
    found
}

impl Clone for Json {
    fn clone(&self) -> (r: Self)
        ensures
            r@ == self@,
    {
        clone_json(self)
    }
}

/// A copy of a JSON value that says the same.
fn clone_json(json: &Json) -> (r: Json)
    ensures
        r@ == json@,
    decreases *json,
{
    match json {
        Json::Null => Json::Null,
        Json::Bool(b) => Json::Bool(*b),
        Json::Unsigned(n) => Json::Unsigned(*n),
        Json::Signed(n) => Json::Signed(*n),
        Json::Number(n) => Json::Number(number_clone(n)),
        Json::Text(s) => Json::Text(s.clone()),
        Json::Array(items) => {
            let mut copies: Vec<Json> = Vec::new();
            let mut i: usize = 0;
            while i < items.len()
                invariant
                    i <= items@.len(),
                    *json == Json::Array(*items),
                    copies@.len() == i,
                    forall|k: int| 0 <= k < i ==> (#[trigger] copies@[k])@ == items@[k]@,
                decreases items@.len() - i,
            {
                proof {
                    lemma_element_smaller(*items, i as int);
                }
                copies.push(clone_json(&items[i]));
                i += 1;
            }
            let copy = Json::Array(copies);
            assert(copy@->Array_0 =~= json@->Array_0);
            copy
        },
        Json::Object(members) => {
            let mut copies: Vec<(String, Json)> = Vec::new();
            let mut i: usize = 0;
            while i < members.len()
                invariant
                    i <= members@.len(),
                    *json == Json::Object(*members),
                    copies@.len() == i,
                    members_view(copies@) == members_view(members@.take(i as int)),
                decreases members@.len() - i,
            {
                let ghost before = copies@;
                let member = &members[i];
                proof {
                    lemma_member_smaller(*members, i as int);
                }
                copies.push((member.0.clone(), clone_json(&member.1)));
                proof {
                    assert(copies@.drop_last() =~= before);
                    assert(members@.take(i + 1).drop_last() =~= members@.take(i as int));
                }
                i += 1;
            }
            assert(members@.take(i as int) =~= members@);
            Json::Object(copies)
        },
    }
}

} // verus!
