//! The line to `serde_json`: the types, names and calls of it that the library
//! takes on trust, and the conversions between its values and [`Json`].
//!
//! What is claimed of `serde_json` is what it does with its default features: a
//! number is a `u64`, a negative `i64` or a finite `f64`, and a map keeps its
//! members sorted by name.

use vstd::prelude::*;

use crate::json::{
    lemma_element_smaller, lemma_member_smaller, members_view, number_view, option_view, Json,
    JsonMembers, JsonView,
};

verus! {

/// The `serde_json::Number` type.
#[verifier::external_type_specification]
#[verifier::external_body]
pub struct ExNumber(serde_json::Number);

/// The integer that a `serde_json::Number` holds; `None` where it holds a
/// floating-point number.
pub uninterp spec fn number_integer(n: serde_json::Number) -> Option<int>;

/// `serde_json::Number::as_i128`: the integer that the number holds, which is
/// one of `i64` or of `u64`, or `None` for a floating-point number.
#[verifier::external_body]
pub(crate) fn number_as_i128(n: &serde_json::Number) -> (r: Option<i128>)
    ensures
        match r {
            Some(i) => number_integer(*n) == Some(i as int) && i64::MIN <= i <= u64::MAX,
            None => number_integer(*n) is None,
        },
{
    n.as_i128()
}

/// `serde_json::Number::from_i128`: a number that holds the integer, or `None`
/// where the integer is neither an `i64` nor a `u64`.
#[verifier::external_body]
pub(crate) fn number_from_i128(i: i128) -> (r: Option<serde_json::Number>)
    ensures
        match r {
            Some(n) => number_integer(n) == Some(i as int) && i64::MIN <= i <= u64::MAX,
            None => !(i64::MIN <= i <= u64::MAX),
        },
{
    serde_json::Number::from_i128(i)
}

/// The clone of `serde_json::Number`, which copies the number as it is.
#[verifier::external_body]
pub(crate) fn number_clone(n: &serde_json::Number) -> (r: serde_json::Number)
    ensures
        r == *n,
{
    n.clone()
}

/// The `serde_json::Value` type.
#[verifier::external_type_specification]
#[verifier::external_body]
pub struct ExValue(serde_json::Value);

/// The `serde_json::Map` type.
#[verifier::external_type_specification]
#[verifier::external_body]
#[verifier::reject_recursive_types(K)]
#[verifier::reject_recursive_types(V)]
pub struct ExMap<K, V>(serde_json::Map<K, V>);

/// The JSON value that a `serde_json::Value` holds.
pub uninterp spec fn value_contents(v: serde_json::Value) -> JsonView;

/// The members that a `serde_json::Map` holds, by name.
pub uninterp spec fn map_contents(m: serde_json::Map<String, serde_json::Value>) -> JsonMembers;

/// `serde_json::Map::new`: a map without members.
#[verifier::external_body]
pub(crate) fn map_new() -> (r: serde_json::Map<String, serde_json::Value>)
    ensures
        map_contents(r) == JsonMembers::empty(),
{
    serde_json::Map::new()
}

/// `serde_json::Map::insert`: the member is put under its name, over the one
/// that was there.
#[verifier::external_body]
pub(crate) fn map_insert(
    m: &mut serde_json::Map<String, serde_json::Value>,
    name: String,
    value: serde_json::Value,
)
    ensures
        map_contents(*final(m)) == map_contents(*old(m)).insert(name@, value_contents(value)),
{
    m.insert(name, value);
}

/// `serde_json::Map::iter`, drained into a list: every member once, under its
/// name. The order of the list is not stated.
#[verifier::external_body]
pub(crate) fn map_entries<'a>(m: &'a serde_json::Map<String, serde_json::Value>) -> (r: Vec<
    (&'a String, &'a serde_json::Value),
>)
    ensures
        forall|i: int|
            #![trigger r@[i]]
            0 <= i < r@.len() ==> map_contents(*m).contains_key(r@[i].0@) && map_contents(
                *m,
            )[r@[i].0@] == value_contents(*r@[i].1),
        forall|i: int, j: int| 0 <= i < j < r@.len() ==> r@[i].0@ != r@[j].0@,
        forall|k: Seq<char>| #[trigger]
            map_contents(*m).contains_key(k) ==> exists|i: int| 0 <= i < r@.len() && r@[i].0@ == k,
{
    m.iter().collect()
}

/// A `serde_json::Value` seen one level deep.
pub(crate) enum OpenValue<'a> {
    Null,
    Bool(bool),
    Number(&'a serde_json::Number),
    Text(&'a String),
    Array(&'a Vec<serde_json::Value>),
    Object(&'a serde_json::Map<String, serde_json::Value>),
}

/// The contents of the elements of an array.
pub open spec fn values_view(values: Seq<serde_json::Value>) -> Seq<JsonView> {
    values.map_values(|v: serde_json::Value| value_contents(v))
}

impl<'a> OpenValue<'a> {
    pub closed spec fn contents(self) -> JsonView {
        match self {
            OpenValue::Null => JsonView::Null,
            OpenValue::Bool(b) => JsonView::Bool(b),
            OpenValue::Number(n) => number_view(*n),
            OpenValue::Text(s) => JsonView::Text(s@),
            OpenValue::Array(a) => JsonView::Array(values_view(a@)),
            OpenValue::Object(m) => JsonView::Object(map_contents(*m)),
        }
    }
}

/// The variants of the `serde_json::Value` enum, told apart: each holds what
/// its name says, and the contents of the value are those of the variant.
#[verifier::external_body]
pub(crate) fn open_value<'a>(v: &'a serde_json::Value) -> (r: OpenValue<'a>)
    ensures
        value_contents(*v) == r.contents(),
{
    match v {
        serde_json::Value::Null => OpenValue::Null,
        serde_json::Value::Bool(b) => OpenValue::Bool(*b),
        serde_json::Value::Number(n) => OpenValue::Number(n),
        serde_json::Value::String(s) => OpenValue::Text(s),
        serde_json::Value::Array(a) => OpenValue::Array(a),
        serde_json::Value::Object(m) => OpenValue::Object(m),
    }
}

/// What one level of a `serde_json::Value` is made from.
pub(crate) enum ValueParts {
    Null,
    Bool(bool),
    Number(serde_json::Number),
    Text(String),
    Array(Vec<serde_json::Value>),
    Object(serde_json::Map<String, serde_json::Value>),
}

impl ValueParts {
    pub closed spec fn contents(self) -> JsonView {
        match self {
            ValueParts::Null => JsonView::Null,
            ValueParts::Bool(b) => JsonView::Bool(b),
            ValueParts::Number(n) => number_view(n),
            ValueParts::Text(s) => JsonView::Text(s@),
            ValueParts::Array(a) => JsonView::Array(values_view(a@)),
            ValueParts::Object(m) => JsonView::Object(map_contents(m)),
        }
    }
}

/// The variants of the `serde_json::Value` enum, built: the value's contents
/// are those of the parts.
#[verifier::external_body]
pub(crate) fn close_value(parts: ValueParts) -> (r: serde_json::Value)
    ensures
        value_contents(r) == parts.contents(),
{
    match parts {
        ValueParts::Null => serde_json::Value::Null,
        ValueParts::Bool(b) => serde_json::Value::Bool(b),
        ValueParts::Number(n) => serde_json::Value::Number(n),
        ValueParts::Text(s) => serde_json::Value::String(s),
        ValueParts::Array(a) => serde_json::Value::Array(a),
        ValueParts::Object(m) => serde_json::Value::Object(m),
    }
}

/// Reads a `serde_json::Value` into a [`Json`] that says the same.
pub fn json_from_value(v: &serde_json::Value) -> (json: Json)
    ensures
        json@ == value_contents(*v),
    decreases value_contents(*v),
{
    match open_value(v) {
        OpenValue::Null => Json::Null,
        OpenValue::Bool(b) => Json::Bool(b),
        OpenValue::Number(n) => json_from_number(n),
        OpenValue::Text(s) => Json::Text(s.clone()),
        OpenValue::Array(values) => {
            let mut items: Vec<Json> = Vec::new();
            let mut i: usize = 0;
            while i < values.len()
                invariant
                    i <= values@.len(),
                    items@.len() == i,
                    value_contents(*v) == JsonView::Array(values_view(values@)),
                    forall|k: int|
                        0 <= k < i ==> (#[trigger] items@[k])@ == value_contents(values@[k]),
                decreases values@.len() - i,
            {
                proof {
                    let contents = value_contents(*v)->Array_0;
                    assert(contents[i as int] == value_contents(values@[i as int]));
                    assert(decreases_to!(value_contents(*v) => contents));
                    assert(decreases_to!(contents => contents[i as int]));
                }
                items.push(json_from_value(&values[i]));
                i += 1;
            }
            let json = Json::Array(items);
            assert(json@->Array_0 =~= values_view(values@));
            json
        },
        OpenValue::Object(m) => {
            let entries = map_entries(m);
            let ghost keys = entries@.map_values(|e: (&String, &serde_json::Value)| e.0@);
            proof {
                assert(map_contents(*m).dom() =~= keys.to_set()) by {
                    assert forall|k: Seq<char>| map_contents(*m).contains_key(k) implies keys.contains(
                        k,
                    ) by {
                        let i = choose|i: int| 0 <= i < entries@.len() && entries@[i].0@ == k;
                        assert(keys[i] == k);
                    }
                    assert forall|k: Seq<char>| keys.contains(k) implies map_contents(
                        *m,
                    ).contains_key(k) by {
                        let i = choose|i: int| 0 <= i < keys.len() && keys[i] == k;
                        assert(entries@[i].0@ == k);
                    }
                }
            }
            let mut members: Vec<(String, Json)> = Vec::new();
            let mut i: usize = 0;
            while i < entries.len()
                invariant
                    i <= entries@.len(),
                    members@.len() == i,
                    value_contents(*v) == JsonView::Object(map_contents(*m)),
                    map_contents(*m).dom().finite(),
                    keys == entries@.map_values(|e: (&String, &serde_json::Value)| e.0@),
                    forall|k: int|
                        #![trigger entries@[k]]
                        0 <= k < entries@.len() ==> map_contents(*m).contains_key(entries@[k].0@)
                            && map_contents(*m)[entries@[k].0@] == value_contents(*entries@[k].1),
                    forall|a: int, b: int|
                        0 <= a < b < entries@.len() ==> entries@[a].0@ != entries@[b].0@,
                    members_view(members@) == map_contents(*m).restrict(
                        keys.take(i as int).to_set(),
                    ),
                decreases entries@.len() - i,
            {
                let ghost before = members@;
                let entry = entries[i];
                proof {
                    assert(entries@[i as int] == entry);
                    let contents = value_contents(*v)->Object_0;
                    assert(contents[entry.0@] == value_contents(*entry.1));
                    assert(decreases_to!(value_contents(*v) => contents));
                    assert(decreases_to!(contents => contents[entry.0@]));
                }
                members.push((entry.0.clone(), json_from_value(entry.1)));
                proof {
                    assert(members@.drop_last() =~= before);
                    let seen = keys.take(i as int);
                    let now = keys.take(i + 1);
                    assert(now =~= seen.push(entry.0@));
                    assert(now.to_set() =~= seen.to_set().insert(entry.0@)) by {
                        assert(now[i as int] == entry.0@);
                        assert forall|k: Seq<char>| seen.contains(k) implies now.contains(k) by {
                            let j = choose|j: int| 0 <= j < seen.len() && seen[j] == k;
                            assert(now[j] == k);
                        }
                    }
                    assert(members_view(members@) =~= map_contents(*m).restrict(now.to_set()));
                }
                i += 1;
            }
            proof {
                assert(keys.take(i as int) =~= keys);
                assert(map_contents(*m).restrict(keys.to_set()) =~= map_contents(*m));
            }
            Json::Object(members)
        },
    }
}

/// Reads a number: as an integer where it holds one, else as it is.
fn json_from_number(n: &serde_json::Number) -> (json: Json)
    ensures
        json@ == number_view(*n),
{
    match number_as_i128(n) {
        Some(i) => if i >= 0 {
            Json::Unsigned(i as u64)
        } else {
            Json::Signed(i as i64)
        },
        None => Json::Number(number_clone(n)),
    }
}

/// Builds a `serde_json::Value` that says the same as a [`Json`].
pub fn json_to_value(json: &Json) -> (v: serde_json::Value)
    ensures
        value_contents(v) == json@,
    decreases *json,
{
    match json {
        Json::Null => close_value(ValueParts::Null),
        Json::Bool(b) => close_value(ValueParts::Bool(*b)),
        Json::Unsigned(n) => integer_to_value(*n as i128),
        Json::Signed(n) => integer_to_value(*n as i128),
        Json::Number(n) => close_value(ValueParts::Number(number_clone(n))),
        Json::Text(s) => close_value(ValueParts::Text(s.clone())),
        Json::Array(items) => {
            let mut values: Vec<serde_json::Value> = Vec::new();
            let mut i: usize = 0;
            while i < items.len()
                invariant
                    i <= items@.len(),
                    *json == Json::Array(*items),
                    values@.len() == i,
                    forall|k: int|
                        0 <= k < i ==> value_contents(#[trigger] values@[k]) == items@[k]@,
                decreases items@.len() - i,
            {
                proof {
                    lemma_element_smaller(*items, i as int);
                }
                values.push(json_to_value(&items[i]));
                i += 1;
            }
            assert(values_view(values@) =~= json@->Array_0);
            close_value(ValueParts::Array(values))
        },
        Json::Object(members) => {
            let mut m = map_new();
            let mut i: usize = 0;
            while i < members.len()
                invariant
                    i <= members@.len(),
                    *json == Json::Object(*members),
                    map_contents(m) == members_view(members@.take(i as int)),
                decreases members@.len() - i,
            {
                let member = &members[i];
                proof {
                    lemma_member_smaller(*members, i as int);
                }
                map_insert(&mut m, member.0.clone(), json_to_value(&member.1));
                assert(members@.take(i + 1).drop_last() =~= members@.take(i as int));
                i += 1;
            }
            assert(members@.take(i as int) =~= members@);
            close_value(ValueParts::Object(m))
        },
    }
}

fn integer_to_value(i: i128) -> (v: serde_json::Value)
    requires
        i64::MIN <= i <= u64::MAX,
    ensures
        value_contents(v) == JsonView::Integer(i as int),
{
    match number_from_i128(i) {
        Some(n) => close_value(ValueParts::Number(n)),
        None => close_value(ValueParts::Null),
    }
}

/// The `serde_json::Error` type.
#[verifier::external_type_specification]
#[verifier::external_body]
pub struct ExError(serde_json::Error);

/// The text that the `Display` of a `serde_json::Error` writes.
pub uninterp spec fn error_text(e: serde_json::Error) -> Seq<char>;

/// `to_string` on a `serde_json::Error`: the text of its `Display`.
#[verifier::external_body]
pub(crate) fn error_to_string(e: &serde_json::Error) -> (r: String)
    ensures
        r@ == error_text(*e),
{
    e.to_string()
}

/// The JSON value that `serde_json::from_str` reads from a text; `None` where
/// it refuses the text.
pub uninterp spec fn text_contents(text: Seq<char>) -> Option<JsonView>;

/// `serde_json::from_str` for a `serde_json::Value`: what comes back depends on
/// the text alone.
#[verifier::external_body]
pub(crate) fn value_from_str(text: &str) -> (r: Result<serde_json::Value, serde_json::Error>)
    ensures
        match r {
            Ok(v) => text_contents(text@) == Some(value_contents(v)),
            Err(_) => text_contents(text@) is None,
        },
{
    serde_json::from_str(text)
}

/// The JSON value that `serde_json::from_slice` reads from bytes, or the text
/// of the error with which it refuses them.
pub uninterp spec fn bytes_contents(bytes: Seq<u8>) -> Result<JsonView, Seq<char>>;

/// `serde_json::from_slice` for a `serde_json::Value`: what comes back depends
/// on the bytes alone.
#[verifier::external_body]
pub(crate) fn value_from_slice(bytes: &[u8]) -> (r: Result<serde_json::Value, serde_json::Error>)
    ensures
        match r {
            Ok(v) => bytes_contents(bytes@) == Ok::<JsonView, Seq<char>>(value_contents(v)),
            Err(e) => bytes_contents(bytes@) == Err::<JsonView, Seq<char>>(error_text(e)),
        },
{
    serde_json::from_slice(bytes)
}

/// The bytes that `serde_json::to_vec` writes for a JSON value.
pub uninterp spec fn contents_bytes(contents: JsonView) -> Seq<u8>;

/// How deep arrays and objects may nest for `serde_json::from_slice` to read
/// them.
pub open spec fn read_depth() -> nat {
    127
}

/// The bytes carry a JSON value: a plain one that nests no deeper than can be
/// read is read back as it was, and whatever is read from the bytes says the
/// same but for fractions.
pub open spec fn carries(bytes: Seq<u8>, contents: JsonView) -> bool {
    &&& contents.plain_within(read_depth()) ==> bytes_contents(bytes) == Ok::<JsonView, Seq<char>>(
        contents,
    )
    &&& match bytes_contents(bytes) {
        Ok(read) => contents.same_but_for_fractions(read),
        Err(_) => true,
    }
}

/// `serde_json::to_vec` for a `serde_json::Value`: it does not fail, since all
/// names are strings and the bytes go to memory, and the bytes depend on the
/// contents alone, since a map keeps its members sorted by name. The bytes carry
/// the contents: where these hold no floating-point number and nest no deeper
/// than can be read, `serde_json::from_slice` reads them back. A floating-point
/// number is written with a point or an exponent, so that it is read as one, but
/// may be read as a neighbour or, near the largest, be refused: that bytes with
/// such a number can be read is not said.
#[verifier::external_body]
pub(crate) fn value_to_vec(v: &serde_json::Value) -> (r: Result<Vec<u8>, serde_json::Error>)
    ensures
        match r {
            Ok(bytes) => {
                &&& bytes@ == contents_bytes(value_contents(*v))
                &&& carries(bytes@, value_contents(*v))
            },
            Err(_) => false,
        },
{
    serde_json::to_vec(v)
}

/// Reads a JSON text; `None` where it is not one.
pub fn parse_text(text: &str) -> (r: Option<Json>)
    ensures
        option_view(r) == text_contents(text@),
{
    match value_from_str(text) {
        Ok(v) => Some(json_from_value(&v)),
        Err(_) => None,
    }
}

/// Reads JSON bytes; the error says why they are refused.
pub fn parse_bytes(bytes: &[u8]) -> (r: Result<Json, String>)
    ensures
        match r {
            Ok(json) => bytes_contents(bytes@) == Ok::<JsonView, Seq<char>>(json@),
            Err(message) => bytes_contents(bytes@) == Err::<JsonView, Seq<char>>(message@),
        },
{
    match value_from_slice(bytes) {
        Ok(v) => Ok(json_from_value(&v)),
        Err(e) => Err(error_to_string(&e)),
    }
}

/// Writes a JSON value as bytes that carry it. Writing does not fail.
pub fn render_bytes(json: &Json) -> (r: Option<Vec<u8>>)
    ensures
        match r {
            Some(bytes) => bytes@ == contents_bytes(json@) && carries(bytes@, json@),
            None => false,
        },
{
    match value_to_vec(&json_to_value(json)) {
        Ok(bytes) => Some(bytes),
        Err(_) => None,
    }
}

} // verus!
