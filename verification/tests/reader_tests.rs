use rpc_latency::config::OrderSide;
use rpc_latency::correlation::CorrelationTable;
use rpc_latency::reader::{on_close, on_frame, Outcome};
use rpc_latency::request::{auth_params, envelope, instrument_params, order_params, request_text};
use rpc_latency::script::{after_reply, call_due, start, Phase, Progress};
use rpc_latency::tick::{book_channel, LatestTick};

#[test]
fn reply_is_delivered_to_the_waiter_under_its_id() {
    let mut table: CorrelationTable<&'static str> = CorrelationTable::new();
    let mut tick = LatestTick::new();
    let first = table.register("first").unwrap();
    let second = table.register("second").unwrap();
    let text = format!(r#"{{"jsonrpc":"2.0","id":{second},"result":"ok"}}"#);
    match on_frame(&mut table, &mut tick, &text, 77, 88) {
        Outcome::Delivered { handle, response } => {
            assert_eq!(handle, "second");
            assert_eq!(response.recv_ts_mono, 77);
            assert_eq!(response.recv_ts_wall, 88);
            assert_eq!(response.result, Some(serde_json::Value::String("ok".to_string())));
        }
        _ => panic!("expected a delivery"),
    }
    assert!(table.is_pending(first));
    assert!(!table.is_pending(second));
    assert_eq!(tick.get(), None);
}

#[test]
fn every_caller_gets_its_own_reply_once() {
    let mut table: CorrelationTable<i64> = CorrelationTable::new();
    let mut tick = LatestTick::new();
    let n: i64 = 101;
    for k in 1..=n {
        assert_eq!(table.register(k * 1000), Ok(k));
    }
    let mut delivered = 0;
    for step in 0..n {
        let id = (step * 29) % n + 1;
        let text = format!(r#"{{"id":{id},"result":{{"echo":{id}}}}}"#);
        match on_frame(&mut table, &mut tick, &text, step, 0) {
            Outcome::Delivered { handle, response } => {
                assert_eq!(handle, id * 1000);
                assert_eq!(response.raw.get("result").unwrap().get("echo").unwrap().as_i64(), Some(id));
                delivered += 1;
            }
            _ => panic!("expected a delivery"),
        }
        assert!(matches!(on_frame(&mut table, &mut tick, &text, step, 0), Outcome::Unmatched));
    }
    assert_eq!(delivered, n);
    assert_eq!(table.outstanding(), 0);
}

#[test]
fn stale_reply_is_dropped() {
    let mut table: CorrelationTable<u8> = CorrelationTable::new();
    let mut tick = LatestTick::new();
    table.register(1).unwrap();
    assert!(matches!(on_frame(&mut table, &mut tick, r#"{"id":99,"result":1}"#, 0, 0), Outcome::Unmatched));
    assert_eq!(table.outstanding(), 1);
    assert_eq!(table.next_id(), 2);
}

#[test]
fn book_event_overwrites_latest_tick_and_touches_no_call() {
    let mut table: CorrelationTable<u8> = CorrelationTable::new();
    let mut tick = LatestTick::new();
    table.register(1).unwrap();
    let book = r#"{"jsonrpc":"2.0","method":"subscription","params":{"channel":"book.BTC-PERPETUAL.raw","data":{}}}"#;
    assert!(matches!(on_frame(&mut table, &mut tick, book, 500, 0), Outcome::Event { tick: true }));
    assert_eq!(tick.get(), Some(500));
    assert!(matches!(on_frame(&mut table, &mut tick, book, 900, 0), Outcome::Event { tick: true }));
    assert_eq!(tick.get(), Some(900));
    let trades = r#"{"method":"subscription","params":{"channel":"trades.BTC-PERPETUAL.raw"}}"#;
    assert!(matches!(on_frame(&mut table, &mut tick, trades, 1_000, 0), Outcome::Event { tick: false }));
    assert_eq!(tick.get(), Some(900));
    assert_eq!(table.outstanding(), 1);
}

#[test]
fn malformed_and_control_frames_change_nothing() {
    let mut table: CorrelationTable<u8> = CorrelationTable::new();
    let mut tick = LatestTick::new();
    table.register(1).unwrap();
    for text in ["", "{", "null", r#"{"method":"heartbeat"}"#, r#"{"id":"1"}"#] {
        assert!(matches!(on_frame(&mut table, &mut tick, text, 5, 5), Outcome::Ignored));
    }
    assert_eq!(table.outstanding(), 1);
    assert_eq!(tick.get(), None);
}

#[test]
fn end_of_connection_fails_every_outstanding_call() {
    let mut table: CorrelationTable<&'static str> = CorrelationTable::new();
    let mut tick = LatestTick::new();
    table.register("a").unwrap();
    table.register("b").unwrap();
    table.register("c").unwrap();
    assert!(matches!(on_frame(&mut table, &mut tick, r#"{"id":1}"#, 0, 0), Outcome::Delivered { handle: "a", .. }));
    let failed = on_close(&mut table);
    let mut got: Vec<(i64, &str)> = failed.into_iter().collect();
    got.sort();
    assert_eq!(got, vec![(2, "b"), (3, "c")]);
    assert!(table.is_closed());
    assert!(matches!(on_frame(&mut table, &mut tick, r#"{"id":2}"#, 0, 0), Outcome::Unmatched));
    assert_eq!(table.register("d"), Err("d"));
}

#[test]
fn envelope_holds_version_id_method_and_params() {
    let params = instrument_params("BTC-PERPETUAL");
    let v = envelope(17, "public/ticker", params.clone());
    assert_eq!(v.get("jsonrpc").and_then(|x| x.as_str()), Some("2.0"));
    assert_eq!(v.get("id").and_then(|x| x.as_i64()), Some(17));
    assert_eq!(v.get("method").and_then(|x| x.as_str()), Some("public/ticker"));
    assert_eq!(v.get("params"), Some(&params));
    assert_eq!(v.as_object().unwrap().len(), 4);
}

#[test]
fn request_text_is_compact_json() {
    let text = request_text(3, "private/cancel", order_params("ETH-42")).unwrap();
    assert_eq!(text, r#"{"id":3,"jsonrpc":"2.0","method":"private/cancel","params":{"order_id":"ETH-42"}}"#);
    let back: serde_json::Value = serde_json::from_str(&text).unwrap();
    assert_eq!(back, envelope(3, "private/cancel", order_params("ETH-42")));
    let negative = request_text(-5, "m", serde_json::Value::Null).unwrap();
    assert_eq!(negative, r#"{"id":-5,"jsonrpc":"2.0","method":"m","params":null}"#);
}

#[test]
fn auth_params_carry_the_credentials() {
    let v = auth_params("my-id", "my \"secret\"");
    assert_eq!(v.get("grant_type").and_then(|x| x.as_str()), Some("client_credentials"));
    assert_eq!(v.get("client_id").and_then(|x| x.as_str()), Some("my-id"));
    assert_eq!(v.get("client_secret").and_then(|x| x.as_str()), Some("my \"secret\""));
    assert_eq!(v.as_object().unwrap().len(), 3);
}

#[test]
fn book_channel_name() {
    assert_eq!(book_channel("BTC-PERPETUAL"), "book.BTC-PERPETUAL.raw");
    assert_eq!(book_channel(""), "book..raw");
}

#[test]
fn run_opens_edits_and_cancels_in_each_iteration() {
    let n = 2usize;
    let mut p = start(n);
    let mut seen: Vec<(usize, Phase)> = Vec::new();
    while p.phase != Phase::Finished {
        seen.push((p.iteration, p.phase));
        p = after_reply(p, n, true);
    }
    assert_eq!(
        seen,
        vec![(0, Phase::Open), (0, Phase::Edit), (0, Phase::Cancel), (1, Phase::Open), (1, Phase::Edit), (1, Phase::Cancel)]
    );
}

#[test]
fn iteration_ends_after_open_when_no_order_is_named() {
    let p = after_reply(start(3), 3, false);
    assert_eq!(p, Progress { iteration: 1, phase: Phase::Open });
    let p = after_reply(p, 3, true);
    assert_eq!(p, Progress { iteration: 1, phase: Phase::Edit });
    let p = after_reply(p, 3, false);
    assert_eq!(p, Progress { iteration: 1, phase: Phase::Cancel });
    let p = after_reply(p, 3, false);
    assert_eq!(p, Progress { iteration: 2, phase: Phase::Open });
    let p = after_reply(p, 3, false);
    assert_eq!(p.phase, Phase::Finished);
    assert_eq!(after_reply(p, 3, true), p);
}

#[test]
fn run_of_no_iterations_is_finished_at_once() {
    assert_eq!(start(0).phase, Phase::Finished);
    assert_eq!(call_due(Phase::Finished, OrderSide::Buy), None);
}

#[test]
fn calls_due_by_phase_and_side() {
    assert_eq!(call_due(Phase::Open, OrderSide::Buy), Some(("buy", "private/buy")));
    assert_eq!(call_due(Phase::Open, OrderSide::Sell), Some(("sell", "private/sell")));
    assert_eq!(call_due(Phase::Edit, OrderSide::Sell), Some(("edit", "private/edit")));
    assert_eq!(call_due(Phase::Cancel, OrderSide::Buy), Some(("cancel", "private/cancel")));
}
