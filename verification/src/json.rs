//! Trusted bridge to serde_json, through which log lines are read.
//!
//! A parsed document is opaque to the verifier, so its content is given a
//! name: [`json_model`] maps a `serde_json::Value` to the ghost [`JsonModel`]
//! it holds, and [`json_of`] names the model that serde_json's parser accepts
//! a given text as (`None` when it rejects the text). The wrappers below each
//! make one serde_json call and state what it does over those names; every
//! decision taken on the parsed data is verified code elsewhere.

use vstd::prelude::*;

verus! {

/// Ghost model of a JSON document, distinguishing exactly what the log
/// format reads: strings, unsigned integers that fit `u64`, `null`, and
/// object fields. Everything else — arrays, booleans, negative or fractional
/// numbers — is `Other`, which every typed accessor refuses.
pub enum JsonModel {
    Null,
    Str(Seq<char>),
    UInt(u64),
    Obj(Map<Seq<char>, JsonModel>),
    Other,
}

#[verifier::external_type_specification]
#[verifier::external_body]
pub struct ExValue(serde_json::Value);

/// The document a parsed `serde_json::Value` holds.
pub uninterp spec fn json_model(v: serde_json::Value) -> JsonModel;

/// The document serde_json's parser accepts `s` as, or `None` when it
/// rejects `s`; a function of the text alone. A text whose object repeats a
/// key is accepted, and the model holds the last occurrence of each key, as
/// serde_json's map building keeps it.
pub uninterp spec fn json_of(s: Seq<char>) -> Option<JsonModel>;

/// Relies on serde_json::from_str: parses the text as one JSON document,
/// rejecting it entirely on any syntax error.
#[verifier::external_body]
pub(crate) fn json_parse(s: &str) -> (r: Option<serde_json::Value>)
    ensures
        match r {
            Some(v) => json_of(s@) == Some(json_model(v)),
            None => json_of(s@) is None,
        },
{
    match serde_json::from_str::<serde_json::Value>(s) {
        Ok(v) => Some(v),
        Err(_) => None,
    }
}

/// Relies on serde_json::Value::get with a string index: field lookup on an
/// object, `None` for a missing key or a non-object.
#[verifier::external_body]
pub(crate) fn json_get<'a>(v: &'a serde_json::Value, key: &str) -> (r: Option<
    &'a serde_json::Value,
>)
    ensures
        match json_model(*v) {
            JsonModel::Obj(m) => match r {
                Some(w) => m.contains_key(key@) && json_model(*w) == m[key@],
                None => !m.contains_key(key@),
            },
            _ => r is None,
        },
{
    v.get(key)
}

/// Relies on serde_json::Value::as_str: the borrowed text of a JSON string,
/// `None` for any other kind of value.
#[verifier::external_body]
pub(crate) fn json_as_str<'a>(v: &'a serde_json::Value) -> (r: Option<&'a str>)
    ensures
        match json_model(*v) {
            JsonModel::Str(s) => r matches Some(t) && t@ == s,
            _ => r is None,
        },
{
    v.as_str()
}

/// Relies on serde_json::Value::as_u64: the value of a JSON number that is
/// an unsigned integer in `u64` range, `None` otherwise.
#[verifier::external_body]
pub(crate) fn json_as_u64(v: &serde_json::Value) -> (r: Option<u64>)
    ensures
        match json_model(*v) {
            JsonModel::UInt(n) => r == Some(n),
            _ => r is None,
        },
{
    v.as_u64()
}

/// Relies on serde_json::Value::is_null.
#[verifier::external_body]
pub(crate) fn json_is_null(v: &serde_json::Value) -> (r: bool)
    ensures
        r == (json_model(*v) is Null),
{
    v.is_null()
}

} // verus!
