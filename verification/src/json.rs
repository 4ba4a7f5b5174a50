//! The boundary with `serde_json`: decoding text into a document and reading
//! a document one level at a time.
//!
//! Nothing in this file is proved. Every function here is a thin call into
//! `serde_json` whose contract is taken on trust; the rest of the crate is
//! verified against these contracts.

use vstd::prelude::*;

verus! {

/// `serde_json::Value`, a decoded document. Opaque: it is read through the
/// functions below.
#[verifier::external_type_specification]
#[verifier::external_body]
pub struct ExJsonValue(serde_json::Value);

/// `serde_json::Error`, why a text could not be decoded.
#[verifier::external_type_specification]
#[verifier::external_body]
pub struct ExJsonError(serde_json::Error);

/// The mathematical content of a JSON document.
///
/// A number is kept as the decimal text that `serde_json` prints for it, an
/// object as a map from key to member.
pub enum Json {
    Null,
    Bool(bool),
    Number(Seq<char>),
    Text(Seq<char>),
    Array(Seq<Json>),
    Object(Map<Seq<char>, Json>),
}

/// The content of a decoded document.
pub uninterp spec fn json_of(v: serde_json::Value) -> Json;

/// The contents of a list of decoded documents.
pub open spec fn docs_of(values: Seq<serde_json::Value>) -> Seq<Json> {
    Seq::new(values.len(), |i: int| json_of(values[i]))
}

/// The document that a text decodes to, if it is well-formed JSON.
pub uninterp spec fn json_parse(text: Seq<char>) -> Option<Json>;

/// `serde_json::from_str::<Value>`: succeeds exactly on the texts that
/// `json_parse` accepts, and the value returned holds the parsed document.
#[verifier::external_body]
pub(crate) fn decode(text: &str) -> (r: Result<serde_json::Value, serde_json::Error>)
    ensures
        r is Ok <==> json_parse(text@) is Some,
        r matches Ok(v) ==> json_parse(text@) == Some(json_of(v)),
{
    serde_json::from_str::<serde_json::Value>(text)
}

/// `Value::get` with a string index: the member under `key` when the value is
/// an object that has one, `None` for every other value.
#[verifier::external_body]
pub(crate) fn member<'a>(v: &'a serde_json::Value, key: &str) -> (r: Option<&'a serde_json::Value>)
    ensures
        r is Some <==> (json_of(*v) matches Json::Object(m) && m.contains_key(key@)),
        r matches Some(x) ==> json_of(*x) == json_of(*v)->Object_0[key@],
{
    v.get(key)
}

/// `Value::as_str`: the text of a string value, `None` for every other value.
#[verifier::external_body]
pub(crate) fn text_of<'a>(v: &'a serde_json::Value) -> (r: Option<&'a str>)
    ensures
        r is Some <==> json_of(*v) is Text,
        r matches Some(s) ==> s@ == json_of(*v)->Text_0,
{
    v.as_str()
}

/// `Value::as_array`: the elements of an array value in order, `None` for
/// every other value.
#[verifier::external_body]
pub(crate) fn items_of<'a>(v: &'a serde_json::Value) -> (r: Option<&'a Vec<serde_json::Value>>)
    ensures
        r is Some <==> json_of(*v) is Array,
        r matches Some(items) ==> docs_of(items@) == json_of(*v)->Array_0,
{
    v.as_array()
}

/// `Value::as_number` followed by the number's `Display`: the decimal text of
/// a number value, `None` for every other value.
#[verifier::external_body]
pub(crate) fn number_of(v: &serde_json::Value) -> (r: Option<String>)
    ensures
        r is Some <==> json_of(*v) is Number,
        r matches Some(s) ==> s@ == json_of(*v)->Number_0,
{
    match v.as_number() {
        Some(n) => Some(n.to_string()),
        None => None,
    }
}

/// `Value::as_bool`: the truth value of a boolean, `None` for every other
/// value.
#[verifier::external_body]
pub(crate) fn flag_of(v: &serde_json::Value) -> (r: Option<bool>)
    ensures
        r is Some <==> json_of(*v) is Bool,
        r matches Some(b) ==> b == json_of(*v)->Bool_0,
{
    v.as_bool()
}

/// `Value::is_object`: whether the value is an object.
#[verifier::external_body]
pub(crate) fn is_object(v: &serde_json::Value) -> (r: bool)
    ensures
        r == (json_of(*v) is Object),
{
    v.is_object()
}

/// `Value::clone`: a copy holds the same document.
#[verifier::external_body]
pub(crate) fn copy_of(v: &serde_json::Value) -> (r: serde_json::Value)
    ensures
        json_of(r) == json_of(*v),
{
    v.clone()
}

} // verus!
