//! What holds of text and of JSON values, whatever is asked of them.

use vstd::prelude::*;

use crate::binding::texts_view;
use crate::codec::{
    bytes_contents, contents_bytes, json_from_value, json_to_value, number_integer, parse_bytes,
    parse_text, render_bytes, text_contents, value_contents,
};
use crate::json::{lemma_members_push, members_view, option_view, put, Json, JsonMembers, JsonView};
use crate::protocol::{
    headers_view, option_downstream, option_text, BackendError, BackendErrorView, BackendRequest,
    DownstreamHttpError, HttpRequestProfile,
};
use crate::text::{
    begins_with, blank, characters, equals_ignoring_ascii_case, folded, holds, is_white_space,
    joined, occurs_at, occurs_in, same_ignoring_ascii_case, white_space,
};

verus! {

/// White space is what Unicode calls so: the tab and the other line controls,
/// the space, the next-line control, and the spaces and separators beyond ASCII.
pub proof fn law_white_space_is_the_unicode_property(c: char, r: bool)
    ensures
        is_white_space(c) <==> {
            ||| '\u{9}' <= c <= '\u{d}'
            ||| c == ' '
            ||| c == '\u{85}'
            ||| c == '\u{a0}'
            ||| c == '\u{1680}'
            ||| '\u{2000}' <= c <= '\u{200a}'
            ||| c == '\u{2028}'
            ||| c == '\u{2029}'
            ||| c == '\u{202f}'
            ||| c == '\u{205f}'
            ||| c == '\u{3000}'
        },
        call_ensures(white_space, (c,), r) ==> r == is_white_space(c),
{
}

/// A text is blank unless one of its characters is not white space.
pub proof fn law_blank_is_without_a_visible_character(s: &str, r: bool)
    requires
        call_ensures(blank, (s,), r),
    ensures
        !r <==> exists|i: int| 0 <= i < s@.len() && !is_white_space(#[trigger] s@[i]),
{
}

/// What begins with a text is that text and some rest.
pub proof fn law_beginning_leaves_a_rest(s: &str, start: &str, r: bool)
    requires
        call_ensures(begins_with, (s, start), r),
    ensures
        r <==> exists|rest: Seq<char>| s@ == #[trigger] start@.add(rest),
{
    lemma_prefix_leaves_a_rest(s@, start@);
}

pub(crate) proof fn lemma_prefix_leaves_a_rest(s: Seq<char>, start: Seq<char>)
    ensures
        start.is_prefix_of(s) <==> exists|rest: Seq<char>| s == #[trigger] start.add(rest),
{
    if start.is_prefix_of(s) {
        assert(s =~= start.add(s.skip(start.len() as int)));
    }
    if exists|rest: Seq<char>| s == #[trigger] start.add(rest) {
        let rest = choose|rest: Seq<char>| s == #[trigger] start.add(rest);
        assert(start =~= s.subrange(0, start.len() as int));
    }
}

/// What holds a part is that part with something before it and something after
/// it.
pub proof fn law_part_has_a_before_and_an_after(s: &str, part: &str, r: bool)
    requires
        call_ensures(holds, (s, part), r),
    ensures
        r <==> exists|before: Seq<char>, after: Seq<char>|
            s@ == #[trigger] before.add(part@).add(after),
{
    lemma_part_has_a_before_and_an_after(s@, part@);
}

pub(crate) proof fn lemma_part_has_a_before_and_an_after(s: Seq<char>, part: Seq<char>)
    ensures
        occurs_in(s, part) <==> exists|before: Seq<char>, after: Seq<char>|
            s == #[trigger] before.add(part).add(after),
{
    if occurs_in(s, part) {
        let at = choose|at: int| occurs_at(s, part, at);
        assert(s =~= s.take(at).add(part).add(s.skip(at + part.len()))) by {
            assert forall|i: int| at <= i < at + part.len() implies s[i] == part[i - at] by {
                assert(s.subrange(at, at + part.len())[i - at] == s[i]);
            }
        }
    }
    if exists|before: Seq<char>, after: Seq<char>| s == #[trigger] before.add(part).add(after) {
        let (before, after) = choose|before: Seq<char>, after: Seq<char>|
            s == #[trigger] before.add(part).add(after);
        let at = before.len() as int;
        assert(s.subrange(at, at + part.len()) =~= part);
        assert(occurs_at(s, part, at));
    }
}

/// Texts that are the same but for ASCII case have the same characters, place by
/// place, or an upper-case ASCII letter against its lower-case form.
pub proof fn law_ascii_case_is_all_that_is_ignored(a: &str, b: &str, r: bool)
    requires
        call_ensures(equals_ignoring_ascii_case, (a, b), r),
    ensures
        r == same_ignoring_ascii_case(a@, b@),
        r <==> {
            &&& a@.len() == b@.len()
            &&& forall|i: int|
                0 <= i < a@.len() ==> {
                    ||| #[trigger] a@[i] == b@[i]
                    ||| 'A' <= a@[i] <= 'Z' && b@[i] as int == a@[i] as int + 32
                    ||| 'A' <= b@[i] <= 'Z' && a@[i] as int == b@[i] as int + 32
                }
        },
{
    assert forall|i: int| 0 <= i < a@.len() && a@.len() == b@.len() implies (folded(
        #[trigger] a@[i],
    ) == folded(b@[i]) <==> {
        ||| a@[i] == b@[i]
        ||| 'A' <= a@[i] <= 'Z' && b@[i] as int == a@[i] as int + 32
        ||| 'A' <= b@[i] <= 'Z' && a@[i] as int == b@[i] as int + 32
    }) by {
        lemma_folded_alike(a@[i], b@[i]);
    }
}

proof fn lemma_folded_alike(x: char, y: char)
    ensures
        folded(x) == folded(y) <==> {
            ||| x == y
            ||| 'A' <= x <= 'Z' && y as int == x as int + 32
            ||| 'A' <= y <= 'Z' && x as int == y as int + 32
        },
{
}

/// A text is its characters, and texts are joined without a loss.
pub proof fn law_text_is_kept(a: &str, b: &str, chars: Vec<char>, both: String)
    requires
        call_ensures(characters, (a,), chars),
        call_ensures(joined, (a, b), both),
    ensures
        chars@ == a@,
        both@.len() == a@.len() + b@.len(),
        both@.take(a@.len() as int) == a@,
        both@.skip(a@.len() as int) == b@,
{
}

/// A JSON value says what it holds.
pub proof fn law_json_says_what_it_holds(
    b: bool,
    unsigned: u64,
    signed: i64,
    number: serde_json::Number,
    text: String,
    items: Vec<Json>,
    members: Vec<(String, Json)>,
)
    ensures
        Json::Null@ == JsonView::Null,
        Json::Bool(b)@ == JsonView::Bool(b),
        Json::Unsigned(unsigned)@ == JsonView::Integer(unsigned as int),
        Json::Signed(signed)@ == JsonView::Integer(signed as int),
        number_integer(number) is Some ==> Json::Number(number)@ == JsonView::Integer(
            number_integer(number)->0,
        ),
        number_integer(number) is None ==> Json::Number(number)@ == JsonView::Fraction(number),
        Json::Text(text)@ == JsonView::Text(text@),
        Json::Array(items)@ == JsonView::Array(items@.map_values(|item: Json| item@)),
        Json::Object(members)@ == JsonView::Object(members_view(members@)),
{
    assert(Json::Array(items)@->Array_0 =~= items@.map_values(|item: Json| item@));
}

/// A list of members says what its members say, the last one of a name before
/// the others.
pub proof fn law_last_member_of_a_name_counts(
    members: Seq<(String, Json)>,
    name: String,
    value: Json,
    other: Seq<char>,
)
    ensures
        members_view(Seq::empty()).dom().is_empty(),
        members_view(members.push((name, value))).contains_key(name@),
        members_view(members.push((name, value)))[name@] == value@,
        other != name@ ==> members_view(members.push((name, value))).contains_key(other)
            == members_view(members).contains_key(other),
        other != name@ && members_view(members).contains_key(other) ==> members_view(
            members.push((name, value)),
        )[other] == members_view(members)[other],
{
    lemma_members_push(members, (name, value));
}

/// A member that is put is there with its value, and the other members stay.
pub proof fn law_put_member_is_there(
    members: &mut Vec<(String, Json)>,
    name: &str,
    value: Json,
    other: Seq<char>,
)
    ensures
        call_ensures(put, (members, name, value), ()) ==> {
            &&& members_view(final(members)@).contains_key(name@)
            &&& members_view(final(members)@)[name@] == value@
            &&& other != name@ ==> members_view(final(members)@).contains_key(other)
                == members_view(old(members)@).contains_key(other)
            &&& other != name@ && members_view(old(members)@).contains_key(other) ==> members_view(
                final(members)@,
            )[other] == members_view(old(members)@)[other]
        },
{
}

/// A member is found where an object has it, `null` or not, and nowhere else.
pub proof fn law_member_is_found_where_it_is(json: Json, name: &str, r: Option<&Json>)
    requires
        call_ensures(Json::get, (&json, name), r),
    ensures
        r is Some <==> json@ is Object && json@->Object_0.contains_key(name@),
        r is Some ==> r->0@ == json@->Object_0[name@],
        json@.member(name@) is Some <==> json@ is Object && json@->Object_0.contains_key(name@),
        json@.member(name@) is Some ==> json@.member(name@)->0 == json@->Object_0[name@],
{
}

/// A value is taken as an array, a text or `null` exactly when it is one.
pub proof fn law_kinds_are_told_apart(
    json: Json,
    items: Option<&Vec<Json>>,
    text: Option<&str>,
    null: bool,
)
    requires
        call_ensures(Json::as_array, (&json,), items),
        call_ensures(Json::as_str, (&json,), text),
        call_ensures(Json::is_null, (&json,), null),
    ensures
        items is Some <==> json is Array,
        items is Some ==> *items->0 == json->Array_0,
        text is Some <==> json is Text,
        text is Some ==> text->0@ == json->Text_0@,
        null <==> json is Null,
        json@.elements() is Some <==> json@ is Array,
        json@ is Array ==> json@.elements()->0 == json@->Array_0,
        json@.text() is Some <==> json@ is Text,
        json@ is Text ==> json@.text()->0 == json@->Text_0,
{
}

/// A copy says the same, and a text as JSON says the text.
pub proof fn law_copies_say_the_same(json: Json, copy: Json, text: &str, written: Json)
    requires
        call_ensures(Json::clone, (&json,), copy),
        call_ensures(Json::from_text, (text,), written),
    ensures
        copy@ == json@,
        written@ == JsonView::Text(text@),
{
}

/// A JSON value goes to `serde_json` and comes back saying the same.
pub proof fn law_values_convert_there_and_back(
    json: Json,
    value: serde_json::Value,
    back: Json,
    again: serde_json::Value,
)
    requires
        call_ensures(json_to_value, (&json,), value),
        call_ensures(json_from_value, (&value,), back),
        call_ensures(json_to_value, (&back,), again),
    ensures
        value_contents(value) == json@,
        back@ == json@,
        value_contents(again) == value_contents(value),
{
}

/// What is written as bytes is read back: as it was, where it is plain and nests
/// no more than 127 levels deep.
pub proof fn law_written_json_is_read_back(
    json: Json,
    bytes: Option<Vec<u8>>,
    slice: &[u8],
    read: Result<Json, String>,
)
    requires
        call_ensures(render_bytes, (&json,), bytes),
        call_ensures(parse_bytes, (slice,), read),
        bytes is Some ==> slice@ == bytes->0@,
    ensures
        bytes is Some,
        bytes->0@ == contents_bytes(json@),
        json@.plain_within(127) ==> read is Ok && read->Ok_0@ == json@,
        read is Ok ==> json@.same_but_for_fractions(read->Ok_0@),
{
}

/// A value is plain unless a fraction stands in it, or it nests too deep: each
/// array and each object around it takes one level.
pub proof fn law_plain_is_without_fractions(
    json: JsonView,
    number: serde_json::Number,
    items: Seq<JsonView>,
    members: JsonMembers,
    levels: nat,
)
    ensures
        !JsonView::Fraction(number).plain_within(levels),
        !(json is Fraction || json is Array || json is Object) ==> json.plain_within(levels),
        !JsonView::Array(items).plain_within(0),
        !JsonView::Object(members).plain_within(0),
        JsonView::Array(items).plain_within(levels + 1) <==> forall|k: int|
            0 <= k < items.len() ==> (#[trigger] items[k]).plain_within(levels),
        JsonView::Object(members).plain_within(levels + 1) <==> forall|k: Seq<char>| #[trigger]
            members.contains_key(k) ==> members[k].plain_within(levels),
{
    let outer = levels + 1;
    let inner = (outer - 1) as nat;
    assert(inner == levels);
    let array = JsonView::Array(items);
    let object = JsonView::Object(members);
    if array.plain_within(outer) {
        assert(array->Array_0 == items);
        assert forall|k: int| 0 <= k < items.len() implies (#[trigger] items[k]).plain_within(
            levels,
        ) by {
            assert(array->Array_0[k].plain_within(inner));
        }
    }
    if object.plain_within(outer) {
        assert(object->Object_0 == members);
        assert forall|k: Seq<char>| #[trigger] members.contains_key(k) implies members[k].plain_within(
            levels,
        ) by {
            assert(object->Object_0.contains_key(k));
            assert(object->Object_0[k].plain_within(inner));
        }
    }
}

/// Values that say the same but for fractions are of one kind. Texts, booleans
/// and integers are equal in them, and their arrays and objects agree place by
/// place and name by name.
pub proof fn law_only_fractions_may_differ(
    json: JsonView,
    other: JsonView,
    i: int,
    name: Seq<char>,
)
    requires
        json.same_but_for_fractions(other),
    ensures
        json is Fraction <==> other is Fraction,
        json is Array <==> other is Array,
        json is Object <==> other is Object,
        !(json is Fraction || json is Array || json is Object) ==> other == json,
        json is Array ==> json->Array_0.len() == other->Array_0.len(),
        json is Array && 0 <= i < json->Array_0.len()
            ==> json->Array_0[i].same_but_for_fractions(other->Array_0[i]),
        json is Object ==> (json->Object_0.contains_key(name) <==> other->Object_0.contains_key(
            name,
        )),
        json is Object && json->Object_0.contains_key(name)
            ==> json->Object_0[name].same_but_for_fractions(other->Object_0[name]),
{
    if json is Object {
        assert(json->Object_0.dom().contains(name) == other->Object_0.dom().contains(name));
    }
}

/// Reading gives what `serde_json` reads, or its refusal.
pub proof fn law_reading_is_that_of_the_codec(
    text: &str,
    from_text: Option<Json>,
    slice: &[u8],
    from_bytes: Result<Json, String>,
)
    requires
        call_ensures(parse_text, (text,), from_text),
        call_ensures(parse_bytes, (slice,), from_bytes),
    ensures
        from_text is Some <==> text_contents(text@) is Some,
        from_text is Some ==> from_text->0@ == text_contents(text@)->0,
        from_bytes is Ok <==> bytes_contents(slice@) is Ok,
        from_bytes is Ok ==> from_bytes->Ok_0@ == bytes_contents(slice@)->Ok_0,
        from_bytes is Err ==> from_bytes->Err_0@ == bytes_contents(slice@)->Err_0,
{
}

/// What may be left out says the same as what is there, and nothing where it is
/// left out.
pub proof fn law_options_say_what_they_hold(
    json: Option<Json>,
    text: Option<String>,
    error: Option<DownstreamHttpError>,
)
    ensures
        option_view(json) is Some <==> json is Some,
        json is Some ==> option_view(json)->0 == json->0@,
        option_text(text) is Some <==> text is Some,
        text is Some ==> option_text(text)->0 == text->0@,
        option_downstream(error) is Some <==> error is Some,
        error is Some ==> option_downstream(error)->0 == error->0@,
{
}

/// Headers and texts in a list are seen one by one, in their places.
pub proof fn law_lists_are_seen_in_order(
    headers: Seq<(String, String)>,
    texts: Seq<String>,
    i: int,
)
    ensures
        headers_view(headers).len() == headers.len(),
        0 <= i < headers.len() ==> headers_view(headers)[i].0 == headers[i].0@,
        0 <= i < headers.len() ==> headers_view(headers)[i].1 == headers[i].1@,
        texts_view(texts).len() == texts.len(),
        0 <= i < texts.len() ==> texts_view(texts)[i] == texts[i]@,
{
}

/// A request is seen as it is sent.
pub proof fn law_request_is_seen_as_it_is(request: BackendRequest, profile: HttpRequestProfile)
    ensures
        request@.payload == request.payload@,
        request@.headers.len() == request.headers@.len(),
        forall|i: int|
            0 <= i < request.headers@.len() ==> (#[trigger] request@.headers[i]) == (
                request.headers@[i].0@,
                request.headers@[i].1@,
            ),
        request@.idempotency_key is Some <==> request.idempotency is Some,
        request.idempotency is Some ==> request@.idempotency_key->0 == request.idempotency->0.key@,
        profile@.url == profile.url@,
        profile@.method == profile.method,
        profile@.headers == profile.headers,
        profile@.expected_status_codes == profile.expected_status_codes@,
        profile@.require_json_response == profile.require_json_response,
        profile@.max_response_bytes == profile.max_response_bytes,
        profile@.timeout_ms == profile.timeout_ms,
        profile@.allow_private_backends == profile.allow_private_backends,
{
}

/// An error is seen as it is reported, each part under its own name.
pub proof fn law_error_is_seen_as_it_is(e: DownstreamHttpError, text: String)
    ensures
        e@.kind == e.kind@,
        e@.code == e.code@,
        e@.message == e.message@,
        e@.retryable == e.retryable,
        e@.retry_class == e.retry_class@,
        e@.retry_after_ms == e.retry_after_ms,
        e@.idempotency_hint == e.idempotency_hint@,
        e@.caller_retry_decision == e.caller_retry_decision@,
        e@.retry_safety == e.retry_safety@,
        e@.backoff_strategy == e.backoff_strategy@,
        e@.minimum_backoff_ms == e.minimum_backoff_ms,
        e@.suggested_action == e.suggested_action@,
        e@.status_code == e.status_code,
        e@.details == e.details@,
        (BackendError::InvalidSpec { message: text })@ == (BackendErrorView::InvalidSpec {
            message: text@,
        }),
        (BackendError::ProfileNotFound { backend_name: text })@ == (
        BackendErrorView::ProfileNotFound { backend_name: text@ }),
{
}

} // verus!
