//! JSON documents as plain values, decoded by serde_json, and the lookups
//! that the platform responses need.
use vstd::prelude::*;

verus! {

#[verifier::external_type_specification]
#[verifier::external_body]
pub struct ExJsonValue(serde_json::Value);

/// A decoded JSON document. A number keeps the text that serde_json gives
/// for it; an object keeps its members in serde_json's order, each key once.
#[derive(Debug)]
pub enum Json {
    Null,
    Bool(bool),
    Number(String),
    Text(String),
    Array(Vec<Json>),
    Object(Vec<(String, Json)>),
}

/// The document that `text` decodes to, or `None` where it is not JSON.
pub uninterp spec fn json_document(text: Seq<char>) -> Option<Json>;

/// Relies on `serde_json::from_str::<serde_json::Value>`: whether `text` is
/// JSON, and which document it is, depends on `text` alone.
#[verifier::external_body]
fn decode_value(text: &str) -> (r: Option<Json>)
    ensures
        r == json_document(text@),
{
    serde_json::from_str::<serde_json::Value>(text).ok().map(from_value)
}

/// Moves a `serde_json::Value` into a `Json`, variant for variant; the
/// conversion step of `decode_value`, which alone calls it.
#[verifier::external_body]
fn from_value(v: serde_json::Value) -> Json {
    match v {
        serde_json::Value::Null => Json::Null,
        serde_json::Value::Bool(b) => Json::Bool(b),
        serde_json::Value::Number(n) => Json::Number(n.to_string()),
        serde_json::Value::String(s) => Json::Text(s),
        serde_json::Value::Array(a) => Json::Array(a.into_iter().map(from_value).collect()),
        serde_json::Value::Object(m) => Json::Object(
            m.into_iter().map(|(k, x)| (k, from_value(x))).collect(),
        ),
    }
}

/// Decodes `text` as a JSON document; `None` where it is not JSON.
pub fn decode(text: &str) -> (r: Option<Json>)
    ensures
        r == json_document(text@),
{
    decode_value(text)
}

/// The value of the first member named `key`.
pub open spec fn field_in(fields: Seq<(String, Json)>, key: Seq<char>) -> Option<Json>
    decreases fields.len(),
{
    if fields.len() == 0 {
        None
    } else if fields[0].0@ == key {
        Some(fields[0].1)
    } else {
        field_in(fields.drop_first(), key)
    }
}

/// The member `key` of `v`: `None` where `v` is absent, not an object, or
/// has no such member.
pub open spec fn member(v: Option<Json>, key: Seq<char>) -> Option<Json> {
    match v {
        Some(Json::Object(fields)) => field_in(fields@, key),
        _ => None,
    }
}

/// The first element of `v`, where `v` is a non-empty array.
pub open spec fn first_item(v: Option<Json>) -> Option<Json> {
    match v {
        Some(Json::Array(items)) => if items@.len() > 0 {
            Some(items@[0])
        } else {
            None
        },
        _ => None,
    }
}

/// The string that `v` is, where it is one.
pub open spec fn text_of(v: Option<Json>) -> Option<Seq<char>> {
    match v {
        Some(Json::Text(s)) => Some(s@),
        _ => None,
    }
}

/// `o` seen through its reference.
pub open spec fn deref_json(o: Option<&Json>) -> Option<Json> {
    match o {
        Some(x) => Some(*x),
        None => None,
    }
}

/// The member `key` of `v`, where `v` is an object that has one.
pub fn get_member<'a>(v: Option<&'a Json>, key: &str) -> (r: Option<&'a Json>)
    ensures
        deref_json(r) == member(deref_json(v), key@),
{
    match v {
        Some(Json::Object(fields)) => {
            let k = key.to_owned();
            let mut i: usize = 0;
            assert(fields@.subrange(0, fields@.len() as int) =~= fields@);
            while i < fields.len()
                invariant
                    k@ == key@,
                    member(deref_json(v), key@) == field_in(fields@, key@),
                    i <= fields@.len(),
                    field_in(fields@, key@) == field_in(fields@.subrange(i as int, fields@.len() as int), key@),
                decreases fields@.len() - i,
            {
                let ghost rest = fields@.subrange(i as int, fields@.len() as int);
                assert(rest.drop_first() =~= fields@.subrange(i + 1, fields@.len() as int));
                assert(rest[0] == fields@[i as int]);
                if fields[i].0 == k {
                    assert(field_in(rest, key@) == Some(fields@[i as int].1));
                    return Some(&fields[i].1);
                }
                i += 1;
            }
            assert(fields@.subrange(i as int, fields@.len() as int).len() == 0);
            None
        },
        _ => None,
    }
}

/// The first element of `v`, where `v` is a non-empty array.
pub fn get_first<'a>(v: Option<&'a Json>) -> (r: Option<&'a Json>)
    ensures
        deref_json(r) == first_item(deref_json(v)),
{
    match v {
        Some(Json::Array(items)) => if items.len() > 0 {
            Some(&items[0])
        } else {
            None
        },
        _ => None,
    }
}

/// The string that `v` is, where it is one.
pub fn get_text<'a>(v: Option<&'a Json>) -> (r: Option<&'a String>)
    ensures
        r matches Some(s) ==> text_of(deref_json(v)) == Some(s@),
        r is None ==> text_of(deref_json(v)) is None,
{
    match v {
        Some(Json::Text(s)) => Some(s),
        _ => None,
    }
}

} // verus!
