use rpc_latency::record::format_u64;
use rpc_latency::report::{label, report_line, stats_line};
use rpc_latency::summary::{Metric, Stats};

#[test]
fn figures_stand_in_columns() {
    let s = Stats { count: 10, min: 1, median: 5, p90: 9, p99: 9, max: 10 };
    assert_eq!(
        stats_line(&s),
        "    count:     10   min:        1 µs   median:        5 µs   p90:        9 µs   p99:        9 µs   max:       10 µs"
    );
}

#[test]
fn line_matches_std_formatting() {
    for s in [
        Stats { count: 0, min: 0, median: 0, p90: 0, p99: 0, max: 0 },
        Stats { count: 3, min: -1250, median: 17, p90: 12_345_678, p99: 123_456_789, max: i64::MAX },
        Stats { count: 1_234_567, min: i64::MIN, median: -1, p90: 0, p99: 99_999_999, max: 100_000_000 },
        Stats { count: usize::MAX, min: -9_999_999, median: -10_000_000, p90: 1, p99: 2, max: 3 },
    ] {
        let expected = format!(
            "    count: {:>6}   min: {:>8} µs   median: {:>8} µs   p90: {:>8} µs   p99: {:>8} µs   max: {:>8} µs",
            s.count, s.min, s.median, s.p90, s.p99, s.max
        );
        assert_eq!(stats_line(&s), expected);
        assert_eq!(report_line(&Some(s)), expected);
    }
}

#[test]
fn empty_series_is_reported_as_no_data() {
    assert_eq!(report_line(&None), "    no data");
}

#[test]
fn titles_of_the_series() {
    assert_eq!(label(Metric::Rtt), "RTT (Send → Ack)");
    assert_eq!(label(Metric::TickToSend), "Tick → Send");
    assert_eq!(label(Metric::TickToAck), "Tick → Ack");
    assert_eq!(label(Metric::AckDelta), "Ack interval (prev Ack → this Ack)");
}

#[test]
fn natural_numbers_in_decimal() {
    assert_eq!(format_u64(0), "0");
    assert_eq!(format_u64(u64::MAX), "18446744073709551615");
    assert_eq!(format_u64(1_000), "1000");
}
