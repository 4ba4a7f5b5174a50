//! Typed reads from a decoded document.
//!
//! Each reader has a spec function that says what it finds in a document and
//! an executable function that finds it in a `serde_json::Value`.

use vstd::prelude::*;
use crate::decimal::{decimal_text_value, parse_decimal, Decimal};
use crate::json::{docs_of, flag_of, items_of, json_of, member, number_of, text_of, Json};
use crate::text::{i64_text_value, parse_i64};

verus! {

/// The member of an object under `key`.
pub open spec fn get(doc: Json, key: Seq<char>) -> Option<Json> {
    match doc {
        Json::Object(members) => if members.contains_key(key) {
            Some(members[key])
        } else {
            None
        },
        _ => None,
    }
}

/// The text of a string value.
pub open spec fn text_value(j: Json) -> Option<Seq<char>> {
    match j {
        Json::Text(t) => Some(t),
        _ => None,
    }
}

/// The value of a number, or of a string, written as an integer that fits
/// in an `i64`.
pub open spec fn int_value(j: Json) -> Option<i64> {
    match j {
        Json::Number(t) => i64_text_value(t),
        Json::Text(t) => i64_text_value(t),
        _ => None,
    }
}

/// The value of a number, or of a string that holds a decimal literal.
pub open spec fn decimal_value(j: Json) -> Option<Decimal> {
    match j {
        Json::Number(t) => decimal_text_value(t),
        Json::Text(t) => decimal_text_value(t),
        _ => None,
    }
}

/// The elements of an array value.
pub open spec fn items_value(j: Json) -> Option<Seq<Json>> {
    match j {
        Json::Array(items) => Some(items),
        _ => None,
    }
}

/// The text under `key`.
pub open spec fn text_at(doc: Json, key: Seq<char>) -> Option<Seq<char>> {
    match get(doc, key) {
        Some(j) => text_value(j),
        None => None,
    }
}

/// The integer under `key`.
pub open spec fn int_at(doc: Json, key: Seq<char>) -> Option<i64> {
    match get(doc, key) {
        Some(j) => int_value(j),
        None => None,
    }
}

/// The number under `key`.
pub open spec fn decimal_at(doc: Json, key: Seq<char>) -> Option<Decimal> {
    match get(doc, key) {
        Some(j) => decimal_value(j),
        None => None,
    }
}

/// The elements of the array under `key`.
pub open spec fn items_at(doc: Json, key: Seq<char>) -> Option<Seq<Json>> {
    match get(doc, key) {
        Some(j) => items_value(j),
        None => None,
    }
}

/// The truth value under `key`.
pub open spec fn flag_at(doc: Json, key: Seq<char>) -> Option<bool> {
    match get(doc, key) {
        Some(Json::Bool(b)) => Some(b),
        _ => None,
    }
}

/// The texts of an array whose elements are all strings.
pub open spec fn texts_value(j: Json) -> Option<Seq<Seq<char>>> {
    match j {
        Json::Array(items) => if forall|i: int|
            0 <= i < items.len() ==> #[trigger] items[i] is Text {
            Some(Seq::new(items.len(), |i: int| items[i]->Text_0))
        } else {
            None
        },
        _ => None,
    }
}

/// The views of a list of strings.
pub open spec fn text_views(cells: Seq<&str>) -> Seq<Seq<char>> {
    Seq::new(cells.len(), |i: int| cells[i]@)
}

/// Reads an integer from a number or a string.
pub fn read_int(v: &serde_json::Value) -> (r: Option<i64>)
    ensures
        r == int_value(json_of(*v)),
{
    match text_of(v) {
        Some(text) => parse_i64(text),
        None => match number_of(v) {
            Some(text) => parse_i64(text.as_str()),
            None => None,
        },
    }
}

/// Reads a number from a number or a string.
pub fn read_decimal(v: &serde_json::Value) -> (r: Option<Decimal>)
    ensures
        r == decimal_value(json_of(*v)),
        r matches Some(d) ==> d.is_wire(),
{
    match text_of(v) {
        Some(text) => parse_decimal(text),
        None => match number_of(v) {
            Some(text) => parse_decimal(text.as_str()),
            None => None,
        },
    }
}

/// Reads the texts of an array of strings.
pub fn read_texts<'a>(v: &'a serde_json::Value) -> (r: Option<Vec<&'a str>>)
    ensures
        r is Some <==> texts_value(json_of(*v)) is Some,
        r matches Some(cells) ==> text_views(cells@) == texts_value(json_of(*v))->0,
{
    match items_of(v) {
        Some(items) => {
            let ghost docs = json_of(*v)->Array_0;
            let mut out: Vec<&'a str> = Vec::new();
            let mut i: usize = 0;
            while i < items.len()
                invariant
                    i <= items.len(),
                    json_of(*v) == Json::Array(docs),
                    docs_of(items@) == docs,
                    out@.len() == i,
                    forall|k: int| 0 <= k < i ==> (#[trigger] docs[k]) is Text,
                    forall|k: int| 0 <= k < i ==> (#[trigger] out@[k])@ == docs[k]->Text_0,
                decreases items.len() - i,
            {
                assert(docs_of(items@)[i as int] == json_of(items@[i as int]));
                match text_of(&items[i]) {
                    Some(text) => {
                        out.push(text);
                    },
                    None => {
                        assert(!(docs[i as int] is Text));
                        return None;
                    },
                }
                i = i + 1;
            }
            assert(text_views(out@) =~= texts_value(json_of(*v))->0);
            Some(out)
        },
        None => None,
    }
}

/// Reads the text under `key`.
pub fn text_field<'a>(v: &'a serde_json::Value, key: &str) -> (r: Option<&'a str>)
    ensures
        r is Some <==> text_at(json_of(*v), key@) is Some,
        r matches Some(t) ==> text_at(json_of(*v), key@) == Some(t@),
{
    match member(v, key) {
        Some(found) => text_of(found),
        None => None,
    }
}

/// Reads the integer under `key`.
pub fn int_field(v: &serde_json::Value, key: &str) -> (r: Option<i64>)
    ensures
        r == int_at(json_of(*v), key@),
{
    match member(v, key) {
        Some(found) => read_int(found),
        None => None,
    }
}

/// Reads the number under `key`.
pub fn decimal_field(v: &serde_json::Value, key: &str) -> (r: Option<Decimal>)
    ensures
        r == decimal_at(json_of(*v), key@),
        r matches Some(d) ==> d.is_wire(),
{
    match member(v, key) {
        Some(found) => read_decimal(found),
        None => None,
    }
}

/// Reads the elements of the array under `key`.
pub fn items_field<'a>(v: &'a serde_json::Value, key: &str) -> (r: Option<
    &'a Vec<serde_json::Value>,
>)
    ensures
        r is Some <==> items_at(json_of(*v), key@) is Some,
        r matches Some(items) ==> docs_of(items@) == items_at(json_of(*v), key@)->0,
{
    match member(v, key) {
        Some(found) => items_of(found),
        None => None,
    }
}

/// Reads the truth value under `key`.
pub fn flag_field(v: &serde_json::Value, key: &str) -> (r: Option<bool>)
    ensures
        r == flag_at(json_of(*v), key@),
{
    match member(v, key) {
        Some(found) => flag_of(found),
        None => None,
    }
}

} // verus!
