//! The boundary to the JSON parser: the declarations of its types, a model
//! of what a parsed value holds, and one wrapper for each call that the
//! library makes into it. Nothing in this file is proved; the rest of
//! the library is proved against what is stated here.

use vstd::prelude::*;

verus! {

/// `serde_json::Value`, a parsed JSON value. The library sees nothing
/// inside one: it reads it through the wrappers below.
#[verifier::external_type_specification]
#[verifier::external_body]
pub struct ExValue(serde_json::Value);

/// `serde_json::Error`, the parser's report of a text that it did not
/// take. The library reads nothing from it.
#[verifier::external_type_specification]
#[verifier::external_body]
pub struct ExError(serde_json::Error);

/// What a JSON value holds. Numbers other than the unsigned integers that
/// fit in 64 bits are not told apart: the library reads none of them.
pub enum Json {
    Null,
    Bool(bool),
    Unsigned(u64),
    OtherNumber,
    Text(Seq<char>),
    Array(Seq<Json>),
    Object(Map<Seq<char>, Json>),
}

/// What the value `v` holds.
pub uninterp spec fn json_of(v: serde_json::Value) -> Json;

/// What the parser makes of `text`: the value it returns, or `None` where
/// it reports an error.
pub uninterp spec fn json_parsed(text: Seq<char>) -> Option<Json>;

/// `serde_json::from_str::<Value>`: parses a whole text as one JSON value.
/// The outcome is a function of the text alone.
#[verifier::external_body]
pub(crate) fn parse_value(text: &str) -> (r: Result<serde_json::Value, serde_json::Error>)
    ensures
        match r {
            Ok(v) => json_parsed(text@) == Some(json_of(v)),
            Err(_) => json_parsed(text@) is None,
        },
{
    serde_json::from_str::<serde_json::Value>(text)
}

/// `Value::get` with a string index: the member under `key` where `v` is an
/// object that has one, `None` for a missing key and for every other kind
/// of value.
#[verifier::external_body]
pub(crate) fn member<'a>(v: &'a serde_json::Value, key: &str) -> (r: Option<&'a serde_json::Value>)
    ensures
        match r {
            Some(m) => json_of(*v) matches Json::Object(o) && o.contains_key(key@) && o[key@]
                == json_of(*m),
            None => !(json_of(*v) matches Json::Object(o) && o.contains_key(key@)),
        },
{
    v.get(key)
}

/// `Value::as_str`: the text of a JSON string, `None` for every other kind
/// of value.
#[verifier::external_body]
pub(crate) fn as_text<'a>(v: &'a serde_json::Value) -> (r: Option<&'a str>)
    ensures
        match r {
            Some(s) => json_of(*v) == Json::Text(s@),
            None => !(json_of(*v) is Text),
        },
{
    v.as_str()
}

/// `Value::as_u64`: the number where `v` is a non-negative integer that
/// fits in 64 bits, `None` for every other number and kind of value.
#[verifier::external_body]
pub(crate) fn as_unsigned(v: &serde_json::Value) -> (r: Option<u64>)
    ensures
        match r {
            Some(n) => json_of(*v) == Json::Unsigned(n),
            None => !(json_of(*v) is Unsigned),
        },
{
    v.as_u64()
}

} // verus!
