//! The few operations on `serde_json::Value` that the rest of the crate needs.
//!
//! A `Value` is opaque to the verifier. Each operation is a thin call into
//! `serde_json`, and what it returns is given a name so that contracts
//! elsewhere can speak of it exactly. Nothing in this file is proved; it is the
//! trusted boundary towards `serde_json`.

use serde_json::Value;
use vstd::prelude::*;

verus! {

/// `serde_json::Value`, any JSON value. Nothing of its inside is visible to
/// the verifier.
#[verifier::external_type_specification]
#[verifier::external_body]
pub struct ExValue(serde_json::Value);

/// What `serde_json::from_str::<Value>` makes of `text`; `None` where it
/// reports an error.
pub uninterp spec fn json_parse(text: Seq<char>) -> Option<Value>;

/// What `Value::get` finds under the string index `key`.
pub uninterp spec fn json_member(v: Value, key: Seq<char>) -> Option<Value>;

/// What `Value::as_i64` returns.
pub uninterp spec fn json_i64(v: Value) -> Option<i64>;

/// What `Value::as_str` returns, as a sequence of characters.
pub uninterp spec fn json_str(v: Value) -> Option<Seq<char>>;

/// What `Value::as_f64` returns after Rust's saturating cast to `i64`.
pub uninterp spec fn json_truncated(v: Value) -> Option<i64>;

/// Calls `serde_json::from_str::<Value>`. The result depends on the text
/// alone; a text that is not JSON gives `None`.
#[verifier::external_body]
pub(crate) fn parse(text: &str) -> (r: Option<Value>)
    ensures
        r == json_parse(text@),
{
    serde_json::from_str::<Value>(text).ok()
}

/// Calls `Value::get` with a string index and clones what it finds. `get`
/// returns `None` unless the value is an object that holds the key.
#[verifier::external_body]
pub(crate) fn member(v: &Value, key: &str) -> (r: Option<Value>)
    ensures
        r == json_member(*v, key@),
{
    v.get(key).cloned()
}

/// Calls `Value::as_i64`: the integer, where the value is a number that fits
/// an `i64`.
#[verifier::external_body]
pub(crate) fn integer(v: &Value) -> (r: Option<i64>)
    ensures
        r == json_i64(*v),
{
    v.as_i64()
}

/// Calls `Value::as_str` and copies the text: `Some` exactly for a JSON
/// string.
#[verifier::external_body]
pub(crate) fn text(v: &Value) -> (r: Option<String>)
    ensures
        r.is_some() == json_str(*v).is_some(),
        r.is_some() ==> r.unwrap()@ == json_str(*v).unwrap(),
{
    v.as_str().map(|s| s.to_string())
}

/// Calls `Value::as_f64` and casts the number to `i64`, which drops the
/// fraction and saturates at the ends of the range.
#[verifier::external_body]
pub(crate) fn truncated(v: &Value) -> (r: Option<i64>)
    ensures
        r == json_truncated(*v),
{
    match v.as_f64() {
        Some(x) => Some(x as i64),
        None => None,
    }
}

/// The JSON string that `Value::from` makes of a text.
pub uninterp spec fn json_string(s: Seq<char>) -> Value;

/// The JSON number that `Value::from` makes of an integer.
pub uninterp spec fn json_integer(n: i64) -> Value;

/// The JSON object that collecting the entries into a `serde_json::Map`
/// gives.
pub uninterp spec fn json_object(entries: Seq<(Seq<char>, Value)>) -> Value;

/// What `serde_json::to_string` writes for a value; `None` where it reports
/// an error.
pub uninterp spec fn json_text(v: Value) -> Option<Seq<char>>;

/// Calls `Value::from` on a string slice, which gives a JSON string.
#[verifier::external_body]
pub(crate) fn string_value(s: &str) -> (v: Value)
    ensures
        v == json_string(s@),
{
    Value::from(s)
}

/// Calls `Value::from` on an `i64`, which gives a JSON number.
#[verifier::external_body]
pub(crate) fn integer_value(n: i64) -> (v: Value)
    ensures
        v == json_integer(n),
{
    Value::from(n)
}

/// Collects the entries into a `serde_json::Map`, in their order, and wraps
/// it as `Value::Object`.
#[verifier::external_body]
pub(crate) fn object_value(entries: Vec<(String, Value)>) -> (v: Value)
    ensures
        v == json_object(entries@.map_values(|e: (String, Value)| (e.0@, e.1))),
{
    Value::Object(entries.into_iter().collect())
}

/// Calls `serde_json::to_string`: the compact text of the value.
#[verifier::external_body]
pub(crate) fn to_text(v: &Value) -> (r: Option<String>)
    ensures
        r.is_some() == json_text(*v).is_some(),
        r.is_some() ==> r.unwrap()@ == json_text(*v).unwrap(),
{
    serde_json::to_string(v).ok()
}


} // verus!
