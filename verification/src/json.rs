//! JSON documents as the library sees them, read through `serde_json`.
//!
//! A parsed document is a `serde_json::Value`, which is opaque here; what it
//! holds is spoken of through `json_view`.

use vstd::prelude::*;

verus! {

/// `serde_json::Value`, carried through as it is; nothing is known of what
/// one holds but through `json_view`.
#[verifier::external_type_specification]
#[verifier::external_body]
pub struct ExJsonValue(serde_json::Value);

/// What a JSON value holds.
pub ghost enum JsonView {
    Null,
    Bool(bool),
    /// A number that is an integer.
    Int(int),
    /// Any other number.
    Float,
    Text(Seq<char>),
    List(Seq<JsonView>),
    Object(Map<Seq<char>, JsonView>),
}

/// What the `serde_json::Value` `value` holds.
pub uninterp spec fn json_view(value: serde_json::Value) -> JsonView;

/// What `serde_json::from_str` reads from `text` as a `serde_json::Value`,
/// where it reads one.
pub uninterp spec fn json_document(text: Seq<char>) -> Option<JsonView>;

/// The member of an object under `key`: none where the document is no object
/// or has no such member.
pub open spec fn member(doc: JsonView, key: Seq<char>) -> Option<JsonView> {
    match doc {
        JsonView::Object(members) => if members.dom().contains(key) {
            Some(members[key])
        } else {
            None
        },
        _ => None,
    }
}

/// The text of a document that is a string.
pub open spec fn text_of(doc: JsonView) -> Option<Seq<char>> {
    match doc {
        JsonView::Text(s) => Some(s),
        _ => None,
    }
}

/// The value of a document that is an integer within the range of `i64`.
pub open spec fn int_of(doc: JsonView) -> Option<i64> {
    match doc {
        JsonView::Int(n) => if i64::MIN <= n <= i64::MAX {
            Some(n as i64)
        } else {
            None
        },
        _ => None,
    }
}

/// The elements of a document that is an array.
pub open spec fn list_of(doc: JsonView) -> Option<Seq<JsonView>> {
    match doc {
        JsonView::List(items) => Some(items),
        _ => None,
    }
}

/// What each of a sequence of values holds.
pub open spec fn json_views(values: Seq<serde_json::Value>) -> Seq<JsonView> {
    values.map_values(|v: serde_json::Value| json_view(v))
}

/// `serde_json::from_str` at the type `serde_json::Value`: the document that
/// `text` is, or `None` where it is not valid JSON. The result is a function
/// of the text alone.
#[verifier::external_body]
pub(crate) fn json_parse(text: &str) -> (r: Option<serde_json::Value>)
    ensures
        (match r {
            Some(v) => Some(json_view(v)),
            None => None,
        }) == json_document(text@),
{
    serde_json::from_str(text).ok()
}

/// `serde_json::Value::get` with a string index: the member of an object
/// under `key`; `None` where the value is no object or has no such member.
#[verifier::external_body]
pub(crate) fn json_get<'a>(value: &'a serde_json::Value, key: &str) -> (r: Option<
    &'a serde_json::Value,
>)
    ensures
        (match r {
            Some(m) => Some(json_view(*m)),
            None => None,
        }) == member(json_view(*value), key@),
{
    value.get(key)
}

/// `serde_json::Value::as_str`: the text of a value that is a string, `None`
/// for any other value.
#[verifier::external_body]
pub(crate) fn json_as_str<'a>(value: &'a serde_json::Value) -> (r: Option<&'a str>)
    ensures
        (match r {
            Some(s) => Some(s@),
            None => None,
        }) == text_of(json_view(*value)),
{
    value.as_str()
}

/// `serde_json::Value::as_i64`: the value of an integer that fits `i64`,
/// `None` for any other value.
#[verifier::external_body]
pub(crate) fn json_as_i64(value: &serde_json::Value) -> (r: Option<i64>)
    ensures
        r == int_of(json_view(*value)),
{
    value.as_i64()
}

/// `serde_json::Value::as_array`: the elements of a value that is an array,
/// `None` for any other value.
#[verifier::external_body]
pub(crate) fn json_as_array<'a>(value: &'a serde_json::Value) -> (r: Option<
    &'a Vec<serde_json::Value>,
>)
    ensures
        (match r {
            Some(items) => Some(json_views(items@)),
            None => None,
        }) == list_of(json_view(*value)),
{
    value.as_array()
}

/// The text of the member under `key`, where there is one and it is a string.
pub open spec fn text_member(doc: JsonView, key: Seq<char>) -> Option<Seq<char>> {
    match member(doc, key) {
        Some(m) => text_of(m),
        None => None,
    }
}

/// The value of the member under `key`, where there is one and it is an
/// integer that fits `i64`.
pub open spec fn int_member(doc: JsonView, key: Seq<char>) -> Option<i64> {
    match member(doc, key) {
        Some(m) => int_of(m),
        None => None,
    }
}

/// The elements of the member under `key`, where there is one and it is an
/// array.
pub open spec fn list_member(doc: JsonView, key: Seq<char>) -> Option<Seq<JsonView>> {
    match member(doc, key) {
        Some(m) => list_of(m),
        None => None,
    }
}

/// The text of the member under `key`, or `default` where there is none or it
/// is no string.
pub open spec fn text_or(doc: JsonView, key: Seq<char>, default: Seq<char>) -> Seq<char> {
    match text_member(doc, key) {
        Some(s) => s,
        None => default,
    }
}

/// The value of the member under `key`, or `default` where there is none or
/// it is no integer that fits.
pub open spec fn int_or(doc: JsonView, key: Seq<char>, default: int) -> int {
    match int_member(doc, key) {
        Some(n) => n as int,
        None => default,
    }
}

/// The text of the member of `value` under `key`, if it is a string.
pub fn member_text(value: &serde_json::Value, key: &str) -> (r: Option<String>)
    ensures
        crate::text::opt_text(r) == text_member(json_view(*value), key@),
{
    match json_get(value, key) {
        Some(m) => match json_as_str(m) {
            Some(s) => Some(s.to_owned()),
            None => None,
        },
        None => None,
    }
}

/// The value of the member of `value` under `key`, if it is an integer that
/// fits.
pub fn member_int(value: &serde_json::Value, key: &str) -> (r: Option<i64>)
    ensures
        r == int_member(json_view(*value), key@),
{
    match json_get(value, key) {
        Some(m) => json_as_i64(m),
        None => None,
    }
}

/// The text of the member of `value` under `key`, or `default`.
pub fn member_text_or(value: &serde_json::Value, key: &str, default: &str) -> (r: String)
    ensures
        r@ == text_or(json_view(*value), key@, default@),
{
    match member_text(value, key) {
        Some(s) => s,
        None => default.to_owned(),
    }
}

/// The value of the member of `value` under `key`, or `default`.
pub fn member_int_or(value: &serde_json::Value, key: &str, default: i64) -> (r: i64)
    ensures
        r == int_or(json_view(*value), key@, default as int),
{
    match member_int(value, key) {
        Some(n) => n,
        None => default,
    }
}

} // verus!
