//! The requests that the client writes: the envelope around every call, and
//! the parameters of the calls whose parameters are text alone.

use crate::json::{integer_value, json_integer, json_object, json_string, json_text, object_value, string_value, to_text};
use serde_json::Value;
use vstd::prelude::*;
use vstd::string::StringExecFns;

verus! {

/// The envelope of a call: protocol version, id, method and parameters.
pub open spec fn spec_envelope(id: i64, method: Seq<char>, params: Value) -> Value {
    json_object(
        seq![
            ("jsonrpc"@, json_string("2.0"@)),
            ("id"@, json_integer(id)),
            ("method"@, json_string(method)),
            ("params"@, params),
        ],
    )
}

/// The parameters of the authenticating call.
pub open spec fn spec_auth_params(client_id: Seq<char>, client_secret: Seq<char>) -> Value {
    json_object(
        seq![
            ("grant_type"@, json_string("client_credentials"@)),
            ("client_id"@, json_string(client_id)),
            ("client_secret"@, json_string(client_secret)),
        ],
    )
}

/// The parameters of a call that names an order and nothing else.
pub open spec fn spec_order_params(order_id: Seq<char>) -> Value {
    json_object(seq![("order_id"@, json_string(order_id))])
}

/// The parameters of a call that names an instrument and nothing else.
pub open spec fn spec_instrument_params(instrument: Seq<char>) -> Value {
    json_object(seq![("instrument_name"@, json_string(instrument))])
}

/// Builds the envelope of a call.
pub fn envelope(id: i64, method: &str, params: Value) -> (v: Value)
    ensures
        v == spec_envelope(id, method@, params),
{
    let mut entries: Vec<(String, Value)> = Vec::new();
    entries.push((String::from_str("jsonrpc"), string_value("2.0")));
    entries.push((String::from_str("id"), integer_value(id)));
    entries.push((String::from_str("method"), string_value(method)));
    entries.push((String::from_str("params"), params));
    proof {
        assert(entries@.map_values(|e: (String, Value)| (e.0@, e.1)) =~= seq![
            ("jsonrpc"@, json_string("2.0"@)),
            ("id"@, json_integer(id)),
            ("method"@, json_string(method@)),
            ("params"@, params),
        ]);
    }
    object_value(entries)
}

/// The text of a call as it goes onto the wire; `None` where the envelope
/// cannot be written.
pub fn request_text(id: i64, method: &str, params: Value) -> (r: Option<String>)
    ensures
        r.is_some() == json_text(spec_envelope(id, method@, params)).is_some(),
        r.is_some() ==> r.unwrap()@ == json_text(spec_envelope(id, method@, params)).unwrap(),
{
    let v = envelope(id, method, params);
    to_text(&v)
}

/// Builds the parameters of the authenticating call.
pub fn auth_params(client_id: &str, client_secret: &str) -> (v: Value)
    ensures
        v == spec_auth_params(client_id@, client_secret@),
{
    let mut entries: Vec<(String, Value)> = Vec::new();
    entries.push((String::from_str("grant_type"), string_value("client_credentials")));
    entries.push((String::from_str("client_id"), string_value(client_id)));
    entries.push((String::from_str("client_secret"), string_value(client_secret)));
    proof {
        assert(entries@.map_values(|e: (String, Value)| (e.0@, e.1)) =~= seq![
            ("grant_type"@, json_string("client_credentials"@)),
            ("client_id"@, json_string(client_id@)),
            ("client_secret"@, json_string(client_secret@)),
        ]);
    }
    object_value(entries)
}

/// Builds the parameters of a call that names an order.
pub fn order_params(order_id: &str) -> (v: Value)
    ensures
        v == spec_order_params(order_id@),
{
    let mut entries: Vec<(String, Value)> = Vec::new();
    entries.push((String::from_str("order_id"), string_value(order_id)));
    proof {
        assert(entries@.map_values(|e: (String, Value)| (e.0@, e.1)) =~= seq![
            ("order_id"@, json_string(order_id@)),
        ]);
    }
    object_value(entries)
}

/// Builds the parameters of a call that names an instrument.
pub fn instrument_params(instrument: &str) -> (v: Value)
    ensures
        v == spec_instrument_params(instrument@),
{
    let mut entries: Vec<(String, Value)> = Vec::new();
    entries.push((String::from_str("instrument_name"), string_value(instrument)));
    proof {
        assert(entries@.map_values(|e: (String, Value)| (e.0@, e.1)) =~= seq![
            ("instrument_name"@, json_string(instrument@)),
        ]);
    }
    object_value(entries)
}

} // verus!
