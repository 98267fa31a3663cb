//! What an inbound frame is: a reply to a call, a market-data event, or
//! neither.
//!
//! A frame whose body carries an integer `id` is a reply, whatever else it
//! holds. Without one, a body whose `method` is `"subscription"` and whose
//! `params.channel` is a string is a market-data event. Everything else, a
//! body that is not JSON included, is passed over.

use crate::json::{integer, json_i64, json_member, json_parse, json_str, member, parse, text};
use serde_json::Value;
use vstd::prelude::*;
use vstd::string::StringExecFns;

verus! {

/// A market-data update, kept for its arrival time alone.
pub struct MarketDataEvent {
    /// Monotonic arrival time, in nanoseconds since the process started.
    pub recv_ts_mono: i64,
    pub channel: String,
}

/// A reply to a call, with the moment at which its frame was read.
pub struct RpcResponse {
    pub result: Option<Value>,
    pub error: Option<Value>,
    /// The whole message body.
    pub raw: Value,
    /// Monotonic arrival time, in nanoseconds since the process started.
    pub recv_ts_mono: i64,
    /// Wall-clock arrival time, in nanoseconds since the Unix epoch.
    pub recv_ts_wall: i64,
}

impl RpcResponse {
    /// A reply with an error payload has failed, whether or not it also
    /// carries a result.
    pub fn is_failed(&self) -> (b: bool)
        ensures
            b == self.error.is_some(),
    {
        self.error.is_some()
    }

    /// The id of the order that a reply names under
    /// `result.order.order_id`, where it is a string.
    pub fn order_id(&self) -> (r: Option<String>)
        ensures
            r.is_some() == reported_order_id(*self).is_some(),
            r.is_some() ==> r.unwrap()@ == reported_order_id(*self).unwrap(),
    {
        match &self.result {
            Some(result) => match member(result, "order") {
                Some(order) => match member(&order, "order_id") {
                    Some(id) => text(&id),
                    None => None,
                },
                None => None,
            },
            None => None,
        }
    }
}

/// The string under `result.order.order_id` of a reply, if there is one.
pub open spec fn reported_order_id(resp: RpcResponse) -> Option<Seq<char>> {
    match resp.result {
        Some(result) => match json_member(result, "order"@) {
            Some(order) => match json_member(order, "order_id"@) {
                Some(id) => json_str(id),
                None => None,
            },
            None => None,
        },
        None => None,
    }
}

/// Where a frame goes, decided from the three fields that matter.
pub enum Route {
    /// A reply to the call with this id.
    Reply(i64),
    /// A market-data event on this channel.
    Event(String),
    /// Neither: heartbeats and other control frames.
    Ignore,
}

/// An inbound frame, classified and with its parts taken out.
pub enum Inbound {
    Reply { id: i64, response: RpcResponse },
    Event(MarketDataEvent),
    Ignored,
}

/// The fields say "market-data event": no id, the subscription marker, and a
/// channel name.
pub open spec fn is_event(id: Option<i64>, method: Option<Seq<char>>, channel: Option<Seq<char>>) -> bool {
    id.is_none() && method == Some("subscription"@) && channel.is_some()
}

/// `r` is the route that the three fields call for.
pub open spec fn routes_to(
    r: Route,
    id: Option<i64>,
    method: Option<Seq<char>>,
    channel: Option<Seq<char>>,
) -> bool {
    match r {
        Route::Reply(i) => id == Some(i),
        Route::Event(c) => is_event(id, method, channel) && channel == Some(c@),
        Route::Ignore => id.is_none() && !is_event(id, method, channel),
    }
}

/// The integer under `id` in a body, if there is one.
pub open spec fn body_id(raw: Value) -> Option<i64> {
    match json_member(raw, "id"@) {
        Some(v) => json_i64(v),
        None => None,
    }
}

/// The string under `method` in a body, if there is one.
pub open spec fn body_method(raw: Value) -> Option<Seq<char>> {
    match json_member(raw, "method"@) {
        Some(v) => json_str(v),
        None => None,
    }
}

/// The string under `params.channel` in a body, if there is one.
pub open spec fn body_channel(raw: Value) -> Option<Seq<char>> {
    match json_member(raw, "params"@) {
        Some(p) => match json_member(p, "channel"@) {
            Some(c) => json_str(c),
            None => None,
        },
        None => None,
    }
}

/// `r` is what the body `raw`, read at the given instants, classifies as.
pub open spec fn classifies(r: Inbound, raw: Value, recv_ts_mono: i64, recv_ts_wall: i64) -> bool {
    match r {
        Inbound::Reply { id, response } => {
            &&& body_id(raw) == Some(id)
            &&& response.raw == raw
            &&& response.result == json_member(raw, "result"@)
            &&& response.error == json_member(raw, "error"@)
            &&& response.recv_ts_mono == recv_ts_mono
            &&& response.recv_ts_wall == recv_ts_wall
        },
        Inbound::Event(event) => {
            &&& is_event(body_id(raw), body_method(raw), body_channel(raw))
            &&& body_channel(raw) == Some(event.channel@)
            &&& event.recv_ts_mono == recv_ts_mono
        },
        Inbound::Ignored => {
            &&& body_id(raw).is_none()
            &&& !is_event(body_id(raw), body_method(raw), body_channel(raw))
        },
    }
}

/// Decides where a frame goes from its id, its method and its channel.
pub fn route(id: Option<i64>, method: Option<String>, channel: Option<String>) -> (r: Route)
    ensures
        routes_to(
            r,
            id,
            match method {
                Some(m) => Some(m@),
                None => None,
            },
            match channel {
                Some(c) => Some(c@),
                None => None,
            },
        ),
{
    match id {
        Some(i) => Route::Reply(i),
        None => match method {
            Some(m) => {
                let marker = String::from_str("subscription");
                if m == marker {
                    match channel {
                        Some(c) => Route::Event(c),
                        None => Route::Ignore,
                    }
                } else {
                    Route::Ignore
                }
            },
            None => Route::Ignore,
        },
    }
}

fn id_of(raw: &Value) -> (r: Option<i64>)
    ensures
        r == body_id(*raw),
{
    match member(raw, "id") {
        Some(v) => integer(&v),
        None => None,
    }
}

fn method_of(raw: &Value) -> (r: Option<String>)
    ensures
        r.is_some() == body_method(*raw).is_some(),
        r.is_some() ==> r.unwrap()@ == body_method(*raw).unwrap(),
{
    match member(raw, "method") {
        Some(v) => text(&v),
        None => None,
    }
}

fn channel_of(raw: &Value) -> (r: Option<String>)
    ensures
        r.is_some() == body_channel(*raw).is_some(),
        r.is_some() ==> r.unwrap()@ == body_channel(*raw).unwrap(),
{
    match member(raw, "params") {
        Some(p) => match member(&p, "channel") {
            Some(c) => text(&c),
            None => None,
        },
        None => None,
    }
}

/// Classifies a parsed body that was read at the given instants. A reply
/// carries the whole body and copies of its `result` and `error` members.
pub fn classify_body(raw: Value, recv_ts_mono: i64, recv_ts_wall: i64) -> (r: Inbound)
    ensures
        classifies(r, raw, recv_ts_mono, recv_ts_wall),
{
    let id = id_of(&raw);
    let method = method_of(&raw);
    let channel = channel_of(&raw);
    match route(id, method, channel) {
        Route::Reply(id) => {
            let result = member(&raw, "result");
            let error = member(&raw, "error");
            Inbound::Reply { id, response: RpcResponse { result, error, raw, recv_ts_mono, recv_ts_wall } }
        },
        Route::Event(channel) => Inbound::Event(MarketDataEvent { recv_ts_mono, channel }),
        Route::Ignore => Inbound::Ignored,
    }
}

/// Classifies the text of a frame that was read at the given instants. A
/// text that is not JSON is passed over like any other frame of no interest.
pub fn classify_text(frame: &str, recv_ts_mono: i64, recv_ts_wall: i64) -> (r: Inbound)
    ensures
        match json_parse(frame@) {
            Some(raw) => classifies(r, raw, recv_ts_mono, recv_ts_wall),
            None => r is Ignored,
        },
{
    match parse(frame) {
        Some(raw) => classify_body(raw, recv_ts_mono, recv_ts_wall),
        None => Inbound::Ignored,
    }
}

} // verus!
