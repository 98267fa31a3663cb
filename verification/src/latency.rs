//! Latency figures of one finished roundtrip, and the logger that strings
//! samples together.
//!
//! Monotonic instants are nanoseconds since the process started; wall-clock
//! instants are nanoseconds since the Unix epoch. All derived figures are
//! microseconds. The logger's only state is the arrival time of the reply it
//! logged last, from which the spacing between two replies is taken.

use crate::frame::RpcResponse;
use crate::json::{integer, json_i64, json_member, json_str, json_truncated, member, text, truncated};
use serde_json::Value;
use vstd::prelude::*;
use vstd::string::StringExecFns;

verus! {

/// A span in nanoseconds as microseconds, rounded to the nearest, halves away
/// from zero.
pub open spec fn round_us(delta_ns: int) -> int {
    if delta_ns >= 0 {
        (delta_ns + 500) / 1000
    } else {
        -((500 - delta_ns) / 1000)
    }
}

/// A span in nanoseconds as whole microseconds, the fraction dropped.
pub open spec fn trunc_us(delta_ns: int) -> int {
    if delta_ns >= 0 {
        delta_ns / 1000
    } else {
        -((-delta_ns) / 1000)
    }
}

/// The whole microseconds that a monotonic clock counts from `from_ns` to
/// `to_ns`: zero where `to_ns` is not later.
pub open spec fn elapsed_us(from_ns: int, to_ns: int) -> int {
    if to_ns >= from_ns {
        (to_ns - from_ns) / 1000
    } else {
        0
    }
}

/// The instants of one roundtrip, as plain numbers.
#[derive(Clone, Copy, Debug, PartialEq, Eq)]
pub struct Timing {
    /// Arrival of the latest tick as it stood when the request was sent.
    pub tick_ts_mono_ns: Option<i64>,
    pub send_ts_mono_ns: i64,
    pub recv_ts_mono_ns: i64,
    pub send_ts_wall_ns: i64,
    pub recv_ts_wall_ns: i64,
    /// Arrival of the reply that was logged before this one.
    pub prev_ack_mono_ns: Option<i64>,
}

/// The figures derived from a `Timing`, in microseconds.
#[derive(Clone, Copy, Debug, PartialEq, Eq)]
pub struct Metrics {
    pub rtt_mono_us: i64,
    pub rtt_wall_us: i64,
    pub tick_to_send_us: Option<i64>,
    pub tick_to_ack_us: Option<i64>,
    pub ack_delta_prev_us: Option<i64>,
}

/// What `metrics` computes.
pub open spec fn spec_metrics(t: Timing) -> Metrics {
    Metrics {
        rtt_mono_us: elapsed_us(t.send_ts_mono_ns as int, t.recv_ts_mono_ns as int) as i64,
        rtt_wall_us: trunc_us(t.recv_ts_wall_ns - t.send_ts_wall_ns) as i64,
        tick_to_send_us: match t.tick_ts_mono_ns {
            Some(tick) => Some(round_us(t.send_ts_mono_ns - tick) as i64),
            None => None,
        },
        tick_to_ack_us: match t.tick_ts_mono_ns {
            Some(tick) => Some(round_us(t.recv_ts_mono_ns - tick) as i64),
            None => None,
        },
        ack_delta_prev_us: match t.prev_ack_mono_ns {
            Some(prev) => Some(round_us(t.recv_ts_mono_ns - prev) as i64),
            None => None,
        },
    }
}

/// The span between two `i64` instants, in any of the three readings, fits
/// an `i64` once it is in microseconds.
pub proof fn lemma_spans_fit(from_ns: i64, to_ns: i64)
    ensures
        i64::MIN <= round_us(to_ns - from_ns) <= i64::MAX,
        i64::MIN <= trunc_us(to_ns - from_ns) <= i64::MAX,
        0 <= elapsed_us(from_ns as int, to_ns as int) <= i64::MAX,
{
}

fn rounded_span_us(from_ns: i64, to_ns: i64) -> (r: i64)
    ensures
        r == round_us(to_ns - from_ns),
{
    if to_ns >= from_ns {
        let d: u128 = (to_ns as i128 - from_ns as i128) as u128;
        let q: u128 = (d + 500) / 1000;
        q as i64
    } else {
        let d: u128 = (from_ns as i128 - to_ns as i128) as u128;
        let q: u128 = (d + 500) / 1000;
        -(q as i64)
    }
}

fn truncated_span_us(from_ns: i64, to_ns: i64) -> (r: i64)
    ensures
        r == trunc_us(to_ns - from_ns),
{
    if to_ns >= from_ns {
        let d: u128 = (to_ns as i128 - from_ns as i128) as u128;
        let q: u128 = d / 1000;
        q as i64
    } else {
        let d: u128 = (from_ns as i128 - to_ns as i128) as u128;
        let q: u128 = d / 1000;
        -(q as i64)
    }
}

fn elapsed_span_us(from_ns: i64, to_ns: i64) -> (r: i64)
    ensures
        r == elapsed_us(from_ns as int, to_ns as int),
        r >= 0,
{
    if to_ns >= from_ns {
        let d: u128 = (to_ns as i128 - from_ns as i128) as u128;
        let q: u128 = d / 1000;
        q as i64
    } else {
        0
    }
}

/// Derives the latency figures of one roundtrip.
///
/// The monotonic round-trip time counts whole microseconds and is never
/// negative. The wall-clock round-trip time drops the fraction and keeps its
/// sign: a clock that was set back shows as a negative figure. The three
/// figures relative to a tick or to the previous reply are rounded to the
/// nearest microsecond, and each is present exactly when its reference
/// instant is.
pub fn metrics(t: Timing) -> (m: Metrics)
    ensures
        m == spec_metrics(t),
{
    let tick_to_send_us = match t.tick_ts_mono_ns {
        Some(tick) => Some(rounded_span_us(tick, t.send_ts_mono_ns)),
        None => None,
    };
    let tick_to_ack_us = match t.tick_ts_mono_ns {
        Some(tick) => Some(rounded_span_us(tick, t.recv_ts_mono_ns)),
        None => None,
    };
    let ack_delta_prev_us = match t.prev_ack_mono_ns {
        Some(prev) => Some(rounded_span_us(prev, t.recv_ts_mono_ns)),
        None => None,
    };
    Metrics {
        rtt_mono_us: elapsed_span_us(t.send_ts_mono_ns, t.recv_ts_mono_ns),
        rtt_wall_us: truncated_span_us(t.send_ts_wall_ns, t.recv_ts_wall_ns),
        tick_to_send_us,
        tick_to_ack_us,
        ack_delta_prev_us,
    }
}

/// The monotonic round-trip time is never negative; the two tick latencies
/// are present exactly when a tick had been seen at send time; and where the
/// reply did not arrive before the request was sent, the tick-to-reply
/// latency is at least the tick-to-send latency.
pub proof fn law_tick_latencies(t: Timing)
    ensures
        spec_metrics(t).rtt_mono_us >= 0,
        spec_metrics(t).tick_to_send_us.is_some() == t.tick_ts_mono_ns.is_some(),
        spec_metrics(t).tick_to_ack_us.is_some() == t.tick_ts_mono_ns.is_some(),
        t.tick_ts_mono_ns.is_some() && t.send_ts_mono_ns <= t.recv_ts_mono_ns
            ==> spec_metrics(t).tick_to_ack_us.unwrap() >= spec_metrics(t).tick_to_send_us.unwrap(),
{
    lemma_spans_fit(t.send_ts_mono_ns, t.recv_ts_mono_ns);
    if t.tick_ts_mono_ns.is_some() {
        let tick = t.tick_ts_mono_ns.unwrap();
        lemma_spans_fit(tick, t.send_ts_mono_ns);
        lemma_spans_fit(tick, t.recv_ts_mono_ns);
    }
}

/// The spacing between two replies is the difference of their arrival times
/// to within half a microsecond, and is absent for the first sample.
pub proof fn law_ack_spacing(t: Timing)
    ensures
        spec_metrics(t).ack_delta_prev_us.is_some() == t.prev_ack_mono_ns.is_some(),
        t.prev_ack_mono_ns.is_some() ==> {
            let exact_ns = t.recv_ts_mono_ns - t.prev_ack_mono_ns.unwrap();
            let shown_ns = spec_metrics(t).ack_delta_prev_us.unwrap() * 1000;
            -500 <= shown_ns - exact_ns <= 500
        },
{
    if t.prev_ack_mono_ns.is_some() {
        lemma_spans_fit(t.prev_ack_mono_ns.unwrap(), t.recv_ts_mono_ns);
    }
}

/// The integer under `key` in a JSON object: the number itself where it is an
/// integer, else the number with its fraction dropped.
pub open spec fn int_field(v: Value, key: Seq<char>) -> Option<i64> {
    match json_member(v, key) {
        Some(m) => match json_i64(m) {
            Some(n) => Some(n),
            None => json_truncated(m),
        },
        None => None,
    }
}

/// The string under `key` in a JSON object.
pub open spec fn text_field(v: Value, key: Seq<char>) -> Option<Seq<char>> {
    match json_member(v, key) {
        Some(m) => json_str(m),
        None => None,
    }
}

/// An optional string as an optional sequence of characters.
pub open spec fn text_of(s: Option<String>) -> Option<Seq<char>> {
    match s {
        Some(t) => Some(t@),
        None => None,
    }
}

fn read_int(v: &Value, key: &str) -> (r: Option<i64>)
    ensures
        r == int_field(*v, key@),
{
    match member(v, key) {
        Some(m) => match integer(&m) {
            Some(n) => Some(n),
            None => truncated(&m),
        },
        None => None,
    }
}

fn read_text(v: &Value, key: &str) -> (r: Option<String>)
    ensures
        text_of(r) == text_field(*v, key@),
{
    match member(v, key) {
        Some(m) => text(&m),
        None => None,
    }
}

/// The exchange's own timestamps in a reply body: `usIn`, `usOut` and
/// `usDiff`, each where the body carries it.
pub fn extract_engine_timestamps(resp: &RpcResponse) -> (r: (Option<i64>, Option<i64>, Option<i64>))
    ensures
        r.0 == int_field(resp.raw, "usIn"@),
        r.1 == int_field(resp.raw, "usOut"@),
        r.2 == int_field(resp.raw, "usDiff"@),
{
    (read_int(&resp.raw, "usIn"), read_int(&resp.raw, "usOut"), read_int(&resp.raw, "usDiff"))
}

/// The code of a reply's error payload; `None` where the reply has none.
pub open spec fn error_code_of(resp: RpcResponse) -> Option<i64> {
    match resp.error {
        Some(e) => int_field(e, "code"@),
        None => None,
    }
}

/// The message of a reply's error payload; `None` where the reply has none.
pub open spec fn error_message_of(resp: RpcResponse) -> Option<Seq<char>> {
    match resp.error {
        Some(e) => text_field(e, "message"@),
        None => None,
    }
}

/// Code and message of a reply's error payload.
pub fn extract_error(resp: &RpcResponse) -> (r: (Option<i64>, Option<String>))
    ensures
        r.0 == error_code_of(*resp),
        text_of(r.1) == error_message_of(*resp),
{
    match &resp.error {
        Some(e) => (read_int(e, "code"), read_text(e, "message")),
        None => (None, None),
    }
}

/// The RFC 3339 text of a wall-clock instant given in nanoseconds since the
/// Unix epoch, in UTC, as `chrono` writes it.
pub uninterp spec fn rfc3339_text(wall_ns: i64) -> Seq<char>;

/// Calls `chrono::DateTime::from_timestamp_nanos` and then `to_rfc3339` on
/// the UTC instant: the text depends on the number alone.
#[verifier::external_body]
fn wall_to_iso(wall_ns: i64) -> (s: String)
    ensures
        s@ == rfc3339_text(wall_ns),
{
    chrono::DateTime::from_timestamp_nanos(wall_ns).to_rfc3339()
}

/// One latency sample for a single request and its reply.
#[derive(Debug, Clone, PartialEq, Eq)]
pub struct RoundtripSample {
    pub op_type: String,
    pub rpc_method: String,
    pub instrument_name: String,
    pub order_id: Option<String>,
    pub tick_ts_mono_ns: Option<i64>,
    pub send_ts_mono_ns: i64,
    pub recv_ts_mono_ns: i64,
    pub send_ts_wall_iso: String,
    pub recv_ts_wall_iso: String,
    pub rtt_mono_us: i64,
    pub rtt_wall_us: i64,
    pub tick_to_send_us: Option<i64>,
    pub tick_to_ack_us: Option<i64>,
    pub engine_us_in: Option<i64>,
    pub engine_us_out: Option<i64>,
    pub engine_us_diff: Option<i64>,
    pub error_code: Option<i64>,
    pub error_msg: Option<String>,
    /// Time between this reply and the previous one (monotonic), in
    /// microseconds.
    pub ack_delta_prev_us: Option<i64>,
}

/// What is known of one roundtrip when its reply has arrived.
pub struct SampleContext<'a> {
    pub op_type: &'a str,
    pub rpc_method: &'a str,
    pub instrument_name: &'a str,
    pub order_id: Option<&'a str>,
    /// Arrival of the latest tick as it stood when the request was sent.
    pub tick_ts_mono_ns: Option<i64>,
    /// Monotonic send time, in nanoseconds since the process started.
    pub send_ts_mono: i64,
    /// Wall-clock send time, in nanoseconds since the Unix epoch.
    pub send_ts_wall: i64,
    pub resp: &'a RpcResponse,
}

impl<'a> SampleContext<'a> {
    /// The instants of this roundtrip, given the arrival of the reply logged
    /// before it.
    pub open spec fn timing(&self, prev_ack_mono_ns: Option<i64>) -> Timing {
        Timing {
            tick_ts_mono_ns: self.tick_ts_mono_ns,
            send_ts_mono_ns: self.send_ts_mono,
            recv_ts_mono_ns: self.resp.recv_ts_mono,
            send_ts_wall_ns: self.send_ts_wall,
            recv_ts_wall_ns: self.resp.recv_ts_wall,
            prev_ack_mono_ns,
        }
    }
}

/// `s` is the sample of the roundtrip `ctx`, logged after a reply that
/// arrived at `prev_ack_mono_ns`.
pub open spec fn records(s: RoundtripSample, ctx: SampleContext<'_>, prev_ack_mono_ns: Option<i64>) -> bool {
    let m = spec_metrics(ctx.timing(prev_ack_mono_ns));
    &&& s.op_type@ == ctx.op_type@
    &&& s.rpc_method@ == ctx.rpc_method@
    &&& s.instrument_name@ == ctx.instrument_name@
    &&& text_of(s.order_id) == match ctx.order_id {
        Some(o) => Some(o@),
        None => None,
    }
    &&& s.tick_ts_mono_ns == ctx.tick_ts_mono_ns
    &&& s.send_ts_mono_ns == ctx.send_ts_mono
    &&& s.recv_ts_mono_ns == ctx.resp.recv_ts_mono
    &&& s.send_ts_wall_iso@ == rfc3339_text(ctx.send_ts_wall)
    &&& s.recv_ts_wall_iso@ == rfc3339_text(ctx.resp.recv_ts_wall)
    &&& s.rtt_mono_us == m.rtt_mono_us
    &&& s.rtt_wall_us == m.rtt_wall_us
    &&& s.tick_to_send_us == m.tick_to_send_us
    &&& s.tick_to_ack_us == m.tick_to_ack_us
    &&& s.ack_delta_prev_us == m.ack_delta_prev_us
    &&& s.engine_us_in == int_field(ctx.resp.raw, "usIn"@)
    &&& s.engine_us_out == int_field(ctx.resp.raw, "usOut"@)
    &&& s.engine_us_diff == int_field(ctx.resp.raw, "usDiff"@)
    &&& s.error_code == error_code_of(*ctx.resp)
    &&& text_of(s.error_msg) == error_message_of(*ctx.resp)
}

/// Turns finished roundtrips into samples and remembers when the last reply
/// arrived.
pub struct LatencyLogger {
    last_ack_recv_ns: Option<i64>,
}

impl LatencyLogger {
    /// Arrival of the reply that was logged last.
    pub closed spec fn last_ack(&self) -> Option<i64> {
        self.last_ack_recv_ns
    }

    /// A logger that has logged nothing.
    pub fn new() -> (l: Self)
        ensures
            l.last_ack() is None,
    {
        LatencyLogger { last_ack_recv_ns: None }
    }

    /// Arrival of the reply that was logged last, in nanoseconds since the
    /// process started.
    pub fn last_ack_recv_ns(&self) -> (t: Option<i64>)
        ensures
            t == self.last_ack(),
    {
        self.last_ack_recv_ns
    }

    /// Makes the sample of one roundtrip. The spacing to the previous reply
    /// is taken from the reply logged last, and this reply becomes the one
    /// logged last.
    pub fn log_sample(&mut self, ctx: SampleContext<'_>) -> (s: RoundtripSample)
        ensures
            records(s, ctx, old(self).last_ack()),
            final(self).last_ack() == Some(ctx.resp.recv_ts_mono),
    {
        let resp = ctx.resp;
        let m = metrics(
            Timing {
                tick_ts_mono_ns: ctx.tick_ts_mono_ns,
                send_ts_mono_ns: ctx.send_ts_mono,
                recv_ts_mono_ns: resp.recv_ts_mono,
                send_ts_wall_ns: ctx.send_ts_wall,
                recv_ts_wall_ns: resp.recv_ts_wall,
                prev_ack_mono_ns: self.last_ack_recv_ns,
            },
        );
        let (engine_us_in, engine_us_out, engine_us_diff) = extract_engine_timestamps(resp);
        let (error_code, error_msg) = extract_error(resp);
        self.last_ack_recv_ns = Some(resp.recv_ts_mono);
        RoundtripSample {
            op_type: String::from_str(ctx.op_type),
            rpc_method: String::from_str(ctx.rpc_method),
            instrument_name: String::from_str(ctx.instrument_name),
            order_id: match ctx.order_id {
                Some(o) => Some(String::from_str(o)),
                None => None,
            },
            tick_ts_mono_ns: ctx.tick_ts_mono_ns,
            send_ts_mono_ns: ctx.send_ts_mono,
            recv_ts_mono_ns: resp.recv_ts_mono,
            send_ts_wall_iso: wall_to_iso(ctx.send_ts_wall),
            recv_ts_wall_iso: wall_to_iso(resp.recv_ts_wall),
            rtt_mono_us: m.rtt_mono_us,
            rtt_wall_us: m.rtt_wall_us,
            tick_to_send_us: m.tick_to_send_us,
            tick_to_ack_us: m.tick_to_ack_us,
            engine_us_in,
            engine_us_out,
            engine_us_diff,
            error_code,
            error_msg,
            ack_delta_prev_us: m.ack_delta_prev_us,
        }
    }
}

} // verus!
