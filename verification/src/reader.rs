//! What the reader does with one inbound frame, and with the end of the
//! connection.
//!
//! A reply takes the waiter filed under its id out of the table, and is
//! handed over together with that waiter's handle; a reply under whose id
//! nothing waits is dropped. A market-data event on a book channel
//! overwrites the latest tick. Nothing else changes anything.

use crate::correlation::CorrelationTable;
use crate::frame::{
    body_channel,
    body_id,
    body_method,
    classify_text,
    is_event,
    Inbound,
    RpcResponse,
};
use crate::json::{json_member, json_parse};
use crate::tick::{is_book_channel, LatestTick};
use serde_json::Value;
use std::collections::HashMap;
use vstd::prelude::*;

verus! {

/// What became of a frame.
pub enum Outcome<H> {
    /// A reply met its waiter: complete `handle` with `response`.
    Delivered { handle: H, response: RpcResponse },
    /// A reply under whose id nothing waits; it is dropped.
    Unmatched,
    /// A market-data event; `tick` says whether it became the latest tick.
    Event { tick: bool },
    /// Neither a reply nor an event, or no JSON at all.
    Ignored,
}

/// `response` is the reply with body `raw` that was read at the given
/// instants.
pub open spec fn is_reply_of(response: RpcResponse, raw: Value, recv_ts_mono: i64, recv_ts_wall: i64) -> bool {
    &&& response.raw == raw
    &&& response.result == json_member(raw, "result"@)
    &&& response.error == json_member(raw, "error"@)
    &&& response.recv_ts_mono == recv_ts_mono
    &&& response.recv_ts_wall == recv_ts_wall
}

/// The outcome and the new state that the body `raw` calls for, given the
/// state before.
pub open spec fn handled<H>(
    o: Outcome<H>,
    raw: Value,
    recv_ts_mono: i64,
    recv_ts_wall: i64,
    pending_before: Map<i64, H>,
    pending_after: Map<i64, H>,
    tick_before: Option<i64>,
    tick_after: Option<i64>,
) -> bool {
    match body_id(raw) {
        Some(id) => {
            &&& pending_after == pending_before.remove(id)
            &&& tick_after == tick_before
            &&& if pending_before.contains_key(id) {
                match o {
                    Outcome::Delivered { handle, response } => handle == pending_before[id] && is_reply_of(
                        response,
                        raw,
                        recv_ts_mono,
                        recv_ts_wall,
                    ),
                    _ => false,
                }
            } else {
                o is Unmatched
            }
        },
        None => {
            &&& pending_after == pending_before
            &&& if is_event(None, body_method(raw), body_channel(raw)) {
                let book = is_book_channel(body_channel(raw).unwrap());
                &&& o == Outcome::<H>::Event { tick: book }
                &&& tick_after == if book {
                    Some(recv_ts_mono)
                } else {
                    tick_before
                }
            } else {
                &&& o is Ignored
                &&& tick_after == tick_before
            }
        },
    }
}

/// Handles one inbound frame that was read at the given instants.
pub fn on_frame<H>(
    table: &mut CorrelationTable<H>,
    latest: &mut LatestTick,
    frame: &str,
    recv_ts_mono: i64,
    recv_ts_wall: i64,
) -> (o: Outcome<H>)
    requires
        old(table).wf(),
    ensures
        final(table).wf(),
        final(table).counter() == old(table).counter(),
        final(table).terminated() == old(table).terminated(),
        match json_parse(frame@) {
            Some(raw) => handled(
                o,
                raw,
                recv_ts_mono,
                recv_ts_wall,
                old(table).pending(),
                final(table).pending(),
                old(latest)@,
                final(latest)@,
            ),
            None => {
                &&& o is Ignored
                &&& final(table).pending() == old(table).pending()
                &&& final(latest)@ == old(latest)@
            },
        },
{
    match classify_text(frame, recv_ts_mono, recv_ts_wall) {
        Inbound::Reply { id, response } => {
            match table.resolve(id) {
                Some(handle) => Outcome::Delivered { handle, response },
                None => Outcome::Unmatched,
            }
        },
        Inbound::Event(event) => {
            let tick = latest.observe(&event);
            Outcome::Event { tick }
        },
        Inbound::Ignored => Outcome::Ignored,
    }
}

/// Handles the end of the connection: every call that still waits is handed
/// back so that it can be failed, and the table takes no more calls.
pub fn on_close<H>(table: &mut CorrelationTable<H>) -> (failed: HashMap<i64, H>)
    requires
        old(table).wf(),
    ensures
        final(table).wf(),
        final(table).terminated(),
        final(table).counter() == old(table).counter(),
        final(table).pending() == Map::<i64, H>::empty(),
        failed@ == old(table).pending(),
{
    table.close()
}

} // verus!
