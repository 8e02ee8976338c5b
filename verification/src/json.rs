//! Mathematical model of JSON documents, and the trusted boundary to the
//! `serde_json` crate that parses and prints them.
//!
//! The model type [`SpecJson`] mirrors the shape of a JSON document: objects
//! are finite maps from field names to values, numbers are carried as their
//! canonical decimal text (so that no floating point enters the library).
//! Every trusted wrapper below states what the wrapped `serde_json` call
//! returns in terms of this model.

use crate::text::spec_dec_text;
use vstd::prelude::*;

verus! {

/// Model of a JSON document. A number is represented by its canonical text
/// (the text `serde_json` prints for it), an object by a map from field
/// names to values.
pub enum SpecJson {
    Null,
    Bool(bool),
    Num(Seq<char>),
    Str(Seq<char>),
    Arr(Seq<SpecJson>),
    Obj(Map<Seq<char>, SpecJson>),
}

/// Declares `serde_json::Value`, the crate's parsed-JSON type, so that it
/// can stand in signatures and fields; the library sees it only through
/// [`value_model`].
#[verifier::external_type_specification]
#[verifier::external_body]
pub struct ExValue(serde_json::Value);

/// The JSON document a `serde_json::Value` holds.
pub uninterp spec fn value_model(v: serde_json::Value) -> SpecJson;

/// The document that `serde_json::from_str::<Value>` reads from a text:
/// `Some` of the parsed document when the text is valid JSON, `None` when
/// parsing fails.
pub uninterp spec fn json_model(s: Seq<char>) -> Option<SpecJson>;

/// The text that `serde_json::to_string` prints for a document.
pub uninterp spec fn json_text_of(j: SpecJson) -> Seq<char>;

/// Relies on `serde_json::from_str::<Value>`: parsing is a function of the
/// input text alone; it succeeds exactly on valid JSON.
#[verifier::external_body]
pub(crate) fn json_from_str(s: &str) -> (r: Option<serde_json::Value>)
    ensures
        match r {
            Some(v) => json_model(s@) == Some(value_model(v)),
            None => json_model(s@) is None,
        },
{
    serde_json::from_str(s).ok()
}

/// Relies on `serde_json::Value::get` with a string index: it looks a field
/// up when the value is an object and returns `None` otherwise.
#[verifier::external_body]
pub(crate) fn value_get<'a>(v: &'a serde_json::Value, key: &str) -> (r: Option<&'a serde_json::Value>)
    ensures
        match value_model(*v) {
            SpecJson::Obj(m) => {
                &&& r is Some <==> m.contains_key(key@)
                &&& (r matches Some(f) ==> m.contains_key(key@) && value_model(*f) == m[key@])
            },
            _ => r is None,
        },
{
    v.get(key)
}

/// Relies on `serde_json::Value::as_str`: it returns the string a `String`
/// value holds and `None` for every other value.
#[verifier::external_body]
pub(crate) fn value_as_str<'a>(v: &'a serde_json::Value) -> (r: Option<&'a str>)
    ensures
        match value_model(*v) {
            SpecJson::Str(s) => r matches Some(t) && t@ == s,
            _ => r is None,
        },
{
    v.as_str()
}

/// Relies on `serde_json::Value::as_u64`: it returns the numeric value of a
/// number stored as an unsigned integer and `None` for every other value.
/// A number is stored that way exactly when its canonical text is the plain
/// decimal text of a `u64`: negative integers print with a leading `-`, and
/// floating-point numbers always print with a `.` or an exponent.
#[verifier::external_body]
pub(crate) fn value_as_u64(v: &serde_json::Value) -> (r: Option<u64>)
    ensures
        match value_model(*v) {
            SpecJson::Num(t) => {
                &&& (r matches Some(n) ==> t == spec_dec_text(n as int))
                &&& (forall|n: u64| t == spec_dec_text(n as int) ==> r == Some(n))
            },
            _ => r is None,
        },
{
    v.as_u64()
}

/// Relies on `serde_json::Value::is_null`.
#[verifier::external_body]
pub(crate) fn value_is_null(v: &serde_json::Value) -> (r: bool)
    ensures
        r == (value_model(*v) is Null),
{
    v.is_null()
}

/// Relies on `serde_json::Value::is_object`.
#[verifier::external_body]
pub(crate) fn value_is_object(v: &serde_json::Value) -> (r: bool)
    ensures
        r == (value_model(*v) is Obj),
{
    v.is_object()
}

/// Relies on `serde_json::Value::as_array`: it returns the elements of an
/// array value and `None` for every other value.
#[verifier::external_body]
pub(crate) fn value_as_array<'a>(v: &'a serde_json::Value) -> (r: Option<&'a Vec<serde_json::Value>>)
    ensures
        match value_model(*v) {
            SpecJson::Arr(elems) => r matches Some(a) && a@.len() == elems.len() && (forall|i: int|
                0 <= i < elems.len() ==> value_model(#[trigger] a@[i]) == elems[i]),
            _ => r is None,
        },
{
    v.as_array()
}

/// Relies on `serde_json::Value::clone`: the clone holds the same document.
#[verifier::external_body]
pub(crate) fn value_clone(v: &serde_json::Value) -> (r: serde_json::Value)
    ensures
        value_model(r) == value_model(*v),
{
    v.clone()
}

/// Relies on `serde_json::to_string` for `Value`: printing is a function of
/// the document alone (object fields print in the order of their keys) and
/// cannot fail on a `Value`.
#[verifier::external_body]
pub(crate) fn value_to_string(v: &serde_json::Value) -> (r: String)
    ensures
        r@ == json_text_of(value_model(*v)),
{
    serde_json::to_string(v).unwrap()
}

/// Relies on `serde_json::Value::from` for `u64`: the result is a number
/// whose canonical text is the plain decimal text of `n`.
#[verifier::external_body]
pub(crate) fn value_from_u64(n: u64) -> (r: serde_json::Value)
    ensures
        value_model(r) == SpecJson::Num(spec_dec_text(n as int)),
{
    serde_json::Value::from(n)
}

/// Relies on `serde_json::Value::from` for `Vec<Value>`: the result is an
/// array holding exactly those elements in order.
#[verifier::external_body]
pub(crate) fn value_from_array(elems: Vec<serde_json::Value>) -> (r: serde_json::Value)
    ensures
        value_model(r) == SpecJson::Arr(
            Seq::new(elems@.len(), |i: int| value_model(elems@[i])),
        ),
{
    serde_json::Value::from(elems)
}

/// Relies on `serde_json::Value::from` for `&str`: the result is a string
/// value holding exactly `s`.
#[verifier::external_body]
pub(crate) fn value_from_str(s: &str) -> (r: serde_json::Value)
    ensures
        value_model(r) == SpecJson::Str(s@),
{
    serde_json::Value::from(s)
}

/// What a field of a JSON object decodes to as a string: the field's
/// characters when it is present and holds a string, nothing otherwise.
pub open spec fn spec_str_field(m: Map<Seq<char>, SpecJson>, k: Seq<char>) -> Option<Seq<char>> {
    if m.contains_key(k) && m[k] is Str {
        Some(m[k]->Str_0)
    } else {
        None
    }
}

/// What a field of a JSON object decodes to as a `u64`: the field's value
/// when it is present and holds a number whose canonical text is plain
/// decimal, nothing otherwise.
pub open spec fn spec_u64_field(m: Map<Seq<char>, SpecJson>, k: Seq<char>) -> Option<u64> {
    if m.contains_key(k) && m[k] is Num && (exists|n: u64| m[k]->Num_0 == spec_dec_text(n as int)) {
        Some(choose|n: u64| m[k]->Num_0 == spec_dec_text(n as int))
    } else {
        None
    }
}

/// The string the `type` field of a document holds, if the document is an
/// object and the field is present and holds a string.
pub open spec fn spec_type_field(j: SpecJson) -> Option<Seq<char>> {
    match j {
        SpecJson::Obj(m) => spec_str_field(m, "type"@),
        _ => None,
    }
}

} // verus!
