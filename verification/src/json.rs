//! JSON documents, held as `serde_json::Value`.
//!
//! Verus sees nothing inside a `Value`. What one holds is named by
//! `json_model`, and each accessor of `serde_json` that the library calls is
//! wrapped here with a contract over that model. These contracts are
//! believed, not proved.

use vstd::prelude::*;

verus! {

/// A JSON number: an integer of any size, or a float given by its bits.
pub enum JsonNumber {
    Integer(int),
    Float(u64),
}

/// The mathematical content of a JSON document.
pub enum JsonModel {
    Null,
    Bool(bool),
    Number(JsonNumber),
    String(Seq<char>),
    Array(Seq<JsonModel>),
    Object(Map<Seq<char>, JsonModel>),
}

/// `serde_json::Value`, carried through verified code as an opaque value.
#[verifier::external_type_specification]
#[verifier::external_body]
pub struct ExValue(serde_json::Value);

/// What a `serde_json::Value` holds.
pub uninterp spec fn json_model(v: serde_json::Value) -> JsonModel;

/// What `serde_json::from_str` makes of a text: the content of the value it
/// parses to, or `None` where it reports an error.
pub uninterp spec fn json_parse(text: Seq<char>) -> Option<JsonModel>;

/// What `serde_json::to_string_pretty` makes of a value with the given
/// content: its indented text, or `None` where it reports an error.
pub uninterp spec fn json_pretty(m: JsonModel) -> Option<Seq<char>>;

/// The member `key` of an object; `None` for a missing key and for anything
/// that is not an object.
pub open spec fn member(m: JsonModel, key: Seq<char>) -> Option<JsonModel> {
    match m {
        JsonModel::Object(fields) => if fields.contains_key(key) {
            Some(fields[key])
        } else {
            None
        },
        _ => None,
    }
}

/// The text of a JSON string; `None` for anything else.
pub open spec fn text_of(m: JsonModel) -> Option<Seq<char>> {
    match m {
        JsonModel::String(t) => Some(t),
        _ => None,
    }
}

/// The items of a JSON array; `None` for anything else.
pub open spec fn items_of(m: JsonModel) -> Option<Seq<JsonModel>> {
    match m {
        JsonModel::Array(items) => Some(items),
        _ => None,
    }
}

/// The value of a JSON integer that fits `u64`; `None` for anything else.
pub open spec fn u64_of(m: JsonModel) -> Option<u64> {
    match m {
        JsonModel::Number(JsonNumber::Integer(i)) => if 0 <= i <= u64::MAX {
            Some(i as u64)
        } else {
            None
        },
        _ => None,
    }
}

/// The value of a JSON integer that fits `i64`; `None` for anything else.
pub open spec fn i64_of(m: JsonModel) -> Option<i64> {
    match m {
        JsonModel::Number(JsonNumber::Integer(i)) => if i64::MIN <= i <= i64::MAX {
            Some(i as i64)
        } else {
            None
        },
        _ => None,
    }
}

/// The models of a run of values.
pub open spec fn models(items: Seq<serde_json::Value>) -> Seq<JsonModel> {
    Seq::new(items.len(), |i: int| json_model(items[i]))
}

/// Calls `serde_json::from_str` at type `Value`. The contract only gives the
/// outcome its name, `json_parse`.
#[verifier::external_body]
pub(crate) fn parse_value(text: &str) -> (r: Option<serde_json::Value>)
    ensures
        match r {
            Some(v) => json_parse(text@) == Some(json_model(v)),
            None => json_parse(text@) is None,
        },
{
    serde_json::from_str::<serde_json::Value>(text).ok()
}

/// Calls `Value::get` with a string key. As the source has it: the entry of
/// that key where the value is an object that has one, else `None`.
#[verifier::external_body]
pub(crate) fn value_get<'a>(v: &'a serde_json::Value, key: &str) -> (r: Option<
    &'a serde_json::Value,
>)
    ensures
        match r {
            Some(found) => member(json_model(*v), key@) == Some(json_model(*found)),
            None => member(json_model(*v), key@) is None,
        },
{
    v.get(key)
}

/// Calls `Value::as_array`. As the source has it: the vector of an array,
/// `None` for every other kind of value.
#[verifier::external_body]
pub(crate) fn value_as_array<'a>(v: &'a serde_json::Value) -> (r: Option<
    &'a Vec<serde_json::Value>,
>)
    ensures
        match r {
            Some(items) => items_of(json_model(*v)) == Some(models(items@)),
            None => items_of(json_model(*v)) is None,
        },
{
    v.as_array()
}

/// Calls `Value::as_str`. As the source has it: the text of a string, `None`
/// for every other kind of value.
#[verifier::external_body]
pub(crate) fn value_as_str<'a>(v: &'a serde_json::Value) -> (r: Option<&'a str>)
    ensures
        match r {
            Some(s) => text_of(json_model(*v)) == Some(s@),
            None => text_of(json_model(*v)) is None,
        },
{
    v.as_str()
}

/// Calls `Value::as_u64`. As the source has it: the number where it is a
/// non-negative integer, `None` for a negative one, a float and every other
/// kind of value.
#[verifier::external_body]
pub(crate) fn value_as_u64(v: &serde_json::Value) -> (r: Option<u64>)
    ensures
        r == u64_of(json_model(*v)),
{
    v.as_u64()
}

/// Calls `Value::as_i64`. As the source has it: the number where it is an
/// integer from `i64::MIN` to `i64::MAX`, `None` for a greater one, a float
/// and every other kind of value.
#[verifier::external_body]
pub(crate) fn value_as_i64(v: &serde_json::Value) -> (r: Option<i64>)
    ensures
        r == i64_of(json_model(*v)),
{
    v.as_i64()
}

/// Calls `Value::is_null`.
#[verifier::external_body]
pub(crate) fn value_is_null(v: &serde_json::Value) -> (r: bool)
    ensures
        r == (json_model(*v) is Null),
{
    v.is_null()
}

/// Calls `Value::is_object`.
#[verifier::external_body]
pub(crate) fn value_is_object(v: &serde_json::Value) -> (r: bool)
    ensures
        r == (json_model(*v) is Object),
{
    v.is_object()
}

/// Calls `serde_json::to_string_pretty` on a `Value`. The contract only
/// gives the outcome its name, `json_pretty`; the text is a function of the
/// content because an object writes its members in the order of their keys.
#[verifier::external_body]
pub(crate) fn value_to_pretty(v: &serde_json::Value) -> (r: Option<String>)
    ensures
        r.deep_view() == json_pretty(json_model(*v)),
{
    serde_json::to_string_pretty(v).ok()
}

} // verus!
