use rpc_latency::latency::RoundtripSample;
use rpc_latency::record::{
    find_column, find_columns, format_i64, from_record, header, header_line, parse_i64, read_cell, row_of_record,
    row_of_sample, rows_of_table, rows_of_text, sample_line, to_record, Column, Columns, FIELDS,
};
use rpc_latency::summary::{summarize, SampleRow};

fn sample() -> RoundtripSample {
    RoundtripSample {
        op_type: "edit".to_string(),
        rpc_method: "private/edit".to_string(),
        instrument_name: "BTC-PERPETUAL".to_string(),
        order_id: Some("BTC-5".to_string()),
        tick_ts_mono_ns: Some(10_000_000),
        send_ts_mono_ns: 20_000_000,
        recv_ts_mono_ns: 30_000_700,
        send_ts_wall_iso: "2022-09-11T18:34:48+00:00".to_string(),
        recv_ts_wall_iso: "2022-09-11T18:34:48.000250+00:00".to_string(),
        rtt_mono_us: 10_000,
        rtt_wall_us: -250,
        tick_to_send_us: Some(10_000),
        tick_to_ack_us: Some(20_001),
        engine_us_in: Some(1_700_000_000_000_001),
        engine_us_out: None,
        engine_us_diff: Some(0),
        error_code: Some(-32602),
        error_msg: Some("Invalid, \"quoted\"\nparams".to_string()),
        ack_delta_prev_us: None,
    }
}

#[test]
fn decimal_text_of_integers() {
    assert_eq!(format_i64(0), "0");
    assert_eq!(format_i64(7), "7");
    assert_eq!(format_i64(10), "10");
    assert_eq!(format_i64(-1), "-1");
    assert_eq!(format_i64(1_234_567_890), "1234567890");
    assert_eq!(format_i64(i64::MAX), "9223372036854775807");
    assert_eq!(format_i64(i64::MIN), "-9223372036854775808");
}

#[test]
fn decimal_text_matches_std() {
    for n in [0i64, 1, 9, 10, 11, 99, 100, 101, -9, -10, -100, 4_611_686_018_427_387_904, -4_611_686_018_427_387_905] {
        assert_eq!(format_i64(n), n.to_string());
    }
}

#[test]
fn integers_are_read_from_decimal_text() {
    assert_eq!(parse_i64("0"), Some(0));
    assert_eq!(parse_i64("42"), Some(42));
    assert_eq!(parse_i64("-42"), Some(-42));
    assert_eq!(parse_i64("+42"), Some(42));
    assert_eq!(parse_i64("007"), Some(7));
    assert_eq!(parse_i64("-0"), Some(0));
    assert_eq!(parse_i64("9223372036854775807"), Some(i64::MAX));
    assert_eq!(parse_i64("-9223372036854775808"), Some(i64::MIN));
    assert_eq!(parse_i64("00000000000000000000000000001"), Some(1));
}

#[test]
fn text_that_is_no_integer_is_refused() {
    for bad in ["", "-", "+", "--1", "+-1", "1-", "12a", "a12", " 1", "1 ", "1.0", "1e3", "0x10", "٣", "9223372036854775808", "-9223372036854775809", "+9223372036854775808", "99999999999999999999999999"] {
        assert_eq!(parse_i64(bad), None, "{:?}", bad);
    }
}

#[test]
fn reading_agrees_with_std() {
    for t in ["5", "-5", "+5", "005", "", "-", "9223372036854775807", "9223372036854775808", "-9223372036854775808", "1_0"] {
        assert_eq!(parse_i64(t), t.parse::<i64>().ok(), "{:?}", t);
    }
}

#[test]
fn written_integers_read_back() {
    for n in [i64::MIN, i64::MIN + 1, -1_000, -1, 0, 1, 999, 1_000, i64::MAX - 1, i64::MAX] {
        assert_eq!(parse_i64(&format_i64(n)), Some(n));
    }
}

#[test]
fn header_names_the_columns_of_a_sample() {
    let h = header();
    assert_eq!(h.len(), FIELDS);
    assert_eq!(
        h,
        vec![
            "op_type", "rpc_method", "instrument_name", "order_id", "tick_ts_mono_ns", "send_ts_mono_ns",
            "recv_ts_mono_ns", "send_ts_wall_iso", "recv_ts_wall_iso", "rtt_mono_us", "rtt_wall_us",
            "tick_to_send_us", "tick_to_ack_us", "engine_us_in", "engine_us_out", "engine_us_diff",
            "error_code", "error_msg", "ack_delta_prev_us",
        ]
    );
}

#[test]
fn record_of_a_sample() {
    assert_eq!(
        to_record(&sample()),
        vec![
            "edit", "private/edit", "BTC-PERPETUAL", "BTC-5", "10000000", "20000000", "30000700",
            "2022-09-11T18:34:48+00:00", "2022-09-11T18:34:48.000250+00:00", "10000", "-250", "10000", "20001",
            "1700000000000001", "", "0", "-32602", "Invalid, \"quoted\"\nparams", "",
        ]
    );
}

#[test]
fn sample_reads_back_from_its_record() {
    let s = sample();
    assert_eq!(from_record(&to_record(&s)), Some(s));
    let mut bare = sample();
    bare.order_id = None;
    bare.tick_ts_mono_ns = None;
    bare.tick_to_send_us = None;
    bare.tick_to_ack_us = None;
    bare.engine_us_in = None;
    bare.engine_us_diff = None;
    bare.error_code = None;
    bare.error_msg = None;
    bare.ack_delta_prev_us = Some(i64::MIN);
    bare.rtt_wall_us = i64::MAX;
    assert_eq!(from_record(&to_record(&bare)), Some(bare));
}

#[test]
fn sample_reads_back_through_delimited_text() {
    let s = sample();
    let mut writer = csv::Writer::from_writer(Vec::new());
    writer.write_record(header()).unwrap();
    writer.write_record(to_record(&s)).unwrap();
    writer.flush().unwrap();
    let bytes = writer.into_inner().unwrap();
    let mut reader = csv::Reader::from_reader(bytes.as_slice());
    let names: Vec<String> = reader.headers().unwrap().iter().map(|f| f.to_string()).collect();
    assert_eq!(names, header());
    let mut seen = 0;
    for record in reader.records() {
        let fields: Vec<String> = record.unwrap().iter().map(|f| f.to_string()).collect();
        assert_eq!(from_record(&fields), Some(s.clone()));
        assert_eq!(row_of_record(&fields, find_columns(&header())), Some(row_of_sample(&s)));
        seen += 1;
    }
    assert_eq!(seen, 1);
}

#[test]
fn present_but_empty_text_reads_back_as_absent() {
    let mut s = sample();
    s.order_id = Some(String::new());
    let back = from_record(&to_record(&s)).unwrap();
    assert_eq!(back.order_id, None);
    assert_eq!(back.error_msg, s.error_msg);
}

#[test]
fn record_of_wrong_shape_is_refused() {
    let good = to_record(&sample());
    let mut short = good.clone();
    short.pop();
    assert_eq!(from_record(&short), None);
    assert_eq!(row_of_record(&short, find_columns(&header())), None);
    let mut long = good.clone();
    long.push(String::new());
    assert_eq!(from_record(&long), None);
    assert_eq!(from_record(&Vec::new()), None);
    for column in [4usize, 5, 6, 9, 10, 11, 12, 13, 14, 15, 16, 18] {
        let mut bad = good.clone();
        bad[column] = "n/a".to_string();
        assert_eq!(from_record(&bad), None, "column {column}");
    }
    let mut empty_required = good.clone();
    empty_required[9] = String::new();
    assert_eq!(from_record(&empty_required), None);
    assert_eq!(row_of_record(&empty_required, find_columns(&header())), None);
}

#[test]
fn row_reads_only_its_four_columns() {
    let mut fields = to_record(&sample());
    fields[5] = "not a number".to_string();
    fields[16] = "x".to_string();
    let row = row_of_record(&fields, find_columns(&header())).unwrap();
    assert_eq!(row.rtt_mono_us, 10_000);
    assert_eq!(row.tick_to_send_us, Some(10_000));
    assert_eq!(row.tick_to_ack_us, Some(20_001));
    assert_eq!(row.ack_delta_prev_us, None);
    assert_eq!(from_record(&fields), None);
}

#[test]
fn persisted_lines_quote_what_needs_quoting() {
    assert_eq!(
        String::from_utf8(header_line().unwrap()).unwrap(),
        "op_type,rpc_method,instrument_name,order_id,tick_ts_mono_ns,send_ts_mono_ns,recv_ts_mono_ns,\
send_ts_wall_iso,recv_ts_wall_iso,rtt_mono_us,rtt_wall_us,tick_to_send_us,tick_to_ack_us,engine_us_in,\
engine_us_out,engine_us_diff,error_code,error_msg,ack_delta_prev_us\n"
    );
    assert_eq!(
        String::from_utf8(sample_line(&sample()).unwrap()).unwrap(),
        "edit,private/edit,BTC-PERPETUAL,BTC-5,10000000,20000000,30000700,2022-09-11T18:34:48+00:00,\
2022-09-11T18:34:48.000250+00:00,10000,-250,10000,20001,1700000000000001,,0,-32602,\
\"Invalid, \"\"quoted\"\"\nparams\",\n"
    );
}

#[test]
fn persisted_samples_read_back_as_rows() {
    let first = sample();
    let mut second = sample();
    second.rtt_mono_us = 7;
    second.tick_to_send_us = None;
    second.tick_to_ack_us = None;
    second.ack_delta_prev_us = Some(-3);
    let mut text = header_line().unwrap();
    text.extend(sample_line(&first).unwrap());
    text.extend(sample_line(&second).unwrap());
    let rows = rows_of_text(&text).unwrap();
    assert_eq!(rows, vec![row_of_sample(&first), row_of_sample(&second)]);
    assert_eq!(
        rows[1],
        SampleRow { rtt_mono_us: 7, tick_to_send_us: None, tick_to_ack_us: None, ack_delta_prev_us: Some(-3) }
    );
    let summary = summarize(&rows);
    assert_eq!(summary.rtt.unwrap().count, 2);
    assert_eq!(summary.rtt.unwrap().min, 7);
    assert_eq!(summary.tick_to_send.unwrap().count, 1);
    assert_eq!(summary.ack_delta.unwrap().max, -3);
}

#[test]
fn text_without_samples_has_no_rows() {
    assert_eq!(rows_of_text(b""), Some(Vec::new()));
    assert_eq!(rows_of_text(&header_line().unwrap()), Some(Vec::new()));
}

#[test]
fn table_without_rows_has_no_rows_whatever_its_header() {
    assert_eq!(rows_of_text(b"a,b\n"), Some(Vec::new()));
    assert_eq!(rows_of_text(b"tick_to_send_us,tick_to_send_us\n"), Some(Vec::new()));
    assert_eq!(rows_of_text(&sample_line(&sample()).unwrap()), Some(Vec::new()));
    assert_eq!(rows_of_text(b"\xff\xfe,b\n"), Some(Vec::new()));
    assert_eq!(rows_of_table(&None, &Vec::new()), Some(Vec::new()));
    assert_eq!(rows_of_table(&Some(Vec::new()), &Vec::new()), Some(Vec::new()));
    assert_eq!(rows_of_table(&Some(vec!["x".to_string()]), &Vec::new()), Some(Vec::new()));
}

#[test]
fn columns_are_found_by_name() {
    let text = b"note,ack_delta_prev_us,rtt_mono_us,extra,tick_to_ack_us,tick_to_send_us\n\
first,,120,x,300,200\n\
\"second, quoted\",-7,95,,,\n";
    assert_eq!(
        rows_of_text(text),
        Some(vec![
            SampleRow { rtt_mono_us: 120, tick_to_send_us: Some(200), tick_to_ack_us: Some(300), ack_delta_prev_us: None },
            SampleRow { rtt_mono_us: 95, tick_to_send_us: None, tick_to_ack_us: None, ack_delta_prev_us: Some(-7) },
        ])
    );
}

#[test]
fn column_that_the_header_lacks_reads_as_absent() {
    assert_eq!(
        rows_of_text(b"rtt_mono_us\n5\n6\n"),
        Some(vec![
            SampleRow { rtt_mono_us: 5, tick_to_send_us: None, tick_to_ack_us: None, ack_delta_prev_us: None },
            SampleRow { rtt_mono_us: 6, tick_to_send_us: None, tick_to_ack_us: None, ack_delta_prev_us: None },
        ])
    );
}

#[test]
fn rows_that_cannot_be_read_are_refused() {
    // No column for the round-trip time, and a row.
    assert_eq!(rows_of_text(b"a,b\n1,2\n"), None);
    assert_eq!(rows_of_text(b"tick_to_send_us\n1\n"), None);
    // The round-trip time is empty or no number.
    assert_eq!(rows_of_text(b"rtt_mono_us,tick_to_send_us\n,1\n"), None);
    assert_eq!(rows_of_text(b"rtt_mono_us\nfast\n"), None);
    assert_eq!(rows_of_text(b"rtt_mono_us\n1\n2.5\n"), None);
    // An optional cell that is neither empty nor a number.
    assert_eq!(rows_of_text(b"rtt_mono_us,tick_to_ack_us\n1,soon\n"), None);
    // A name that stands twice.
    assert_eq!(rows_of_text(b"rtt_mono_us,rtt_mono_us\n1,1\n"), None);
    assert_eq!(rows_of_text(b"rtt_mono_us,ack_delta_prev_us,ack_delta_prev_us\n1,,\n"), None);
    // The header itself read as a row.
    let mut twice = header_line().unwrap();
    twice.extend(header_line().unwrap());
    assert_eq!(rows_of_text(&twice), None);
}

#[test]
fn text_that_is_no_table_is_refused() {
    assert_eq!(rows_of_text(b"a,b\n1,2,3\n"), None);
    let mut text = header_line().unwrap();
    text.extend(sample_line(&sample()).unwrap());
    text.extend(b"\xff\xfe\n");
    assert_eq!(rows_of_text(&text), None);
}

#[test]
fn table_rows_are_read_after_the_header() {
    let mut bad = to_record(&sample());
    bad[9] = "fast".to_string();
    assert_eq!(rows_of_table(&Some(header()), &vec![to_record(&sample()), bad]), None);
    assert_eq!(rows_of_table(&Some(header()), &vec![to_record(&sample())]), Some(vec![row_of_sample(&sample())]));
    assert_eq!(rows_of_table(&Some(header()), &Vec::new()), Some(Vec::new()));
}

#[test]
fn table_whose_header_cannot_be_read_is_read_by_position() {
    let row = |cells: &[&str]| -> Vec<String> { cells.iter().map(|c| c.to_string()).collect() };
    assert_eq!(
        rows_of_table(&None, &vec![row(&["12", "", "0x10", "-4", "rest"]), row(&["7", "1", "2", "3", ""])]),
        Some(vec![
            SampleRow { rtt_mono_us: 12, tick_to_send_us: None, tick_to_ack_us: Some(16), ack_delta_prev_us: Some(-4) },
            SampleRow { rtt_mono_us: 7, tick_to_send_us: Some(1), tick_to_ack_us: Some(2), ack_delta_prev_us: Some(3) },
        ])
    );
    assert_eq!(rows_of_table(&None, &vec![row(&["12", "1", "2"])]), None);
    assert_eq!(rows_of_table(&None, &vec![row(&["", "1", "2", "3"])]), None);
    assert_eq!(
        rows_of_text(b"\xff,b,c,d\n5,,,9\n"),
        Some(vec![SampleRow { rtt_mono_us: 5, tick_to_send_us: None, tick_to_ack_us: None, ack_delta_prev_us: Some(9) }])
    );
}

#[test]
fn cells_are_decimal_or_hexadecimal() {
    assert_eq!(read_cell("31"), Some(31));
    assert_eq!(read_cell("-31"), Some(-31));
    assert_eq!(read_cell("+31"), Some(31));
    assert_eq!(read_cell("0x1F"), Some(31));
    assert_eq!(read_cell("0x1f"), Some(31));
    assert_eq!(read_cell("0x-1f"), Some(-31));
    assert_eq!(read_cell("0x+A"), Some(10));
    assert_eq!(read_cell("0x0"), Some(0));
    assert_eq!(read_cell("0xabcdef"), Some(0xabcdef));
    assert_eq!(read_cell("0xABCDEF"), Some(0xabcdef));
    assert_eq!(read_cell("0x7fffffffffffffff"), Some(i64::MAX));
    assert_eq!(read_cell("0x-8000000000000000"), Some(i64::MIN));
    for bad in ["", "0x", "0x-", "0xg", "0X1f", "-0x1f", "0x8000000000000000", "0x-8000000000000001", "1f", "0x1 ", "x1"] {
        assert_eq!(read_cell(bad), None, "{:?}", bad);
    }
}

#[test]
fn cells_agree_with_std() {
    for t in ["0", "12", "-12", "+12", "", "-", "9223372036854775807", "9223372036854775808", "0x", "0xff", "0x-ff", "0x+ff", "0xFg", "0x10000000000000000"] {
        let expected = match t.strip_prefix("0x") {
            Some(digits) => i64::from_str_radix(digits, 16).ok(),
            None => t.parse::<i64>().ok(),
        };
        assert_eq!(read_cell(t), expected, "{:?}", t);
    }
}

#[test]
fn hexadecimal_cells_are_read_in_a_table() {
    assert_eq!(
        rows_of_text(b"rtt_mono_us,tick_to_send_us\n0x10,0x-2\n"),
        Some(vec![SampleRow { rtt_mono_us: 16, tick_to_send_us: Some(-2), tick_to_ack_us: None, ack_delta_prev_us: None }])
    );
}

#[test]
fn names_are_located_in_a_header() {
    let h: Vec<String> = ["a", "b", "a", "c"].iter().map(|s| s.to_string()).collect();
    assert_eq!(find_column(&h, "a"), Column::Twice);
    assert_eq!(find_column(&h, "b"), Column::At(1));
    assert_eq!(find_column(&h, "c"), Column::At(3));
    assert_eq!(find_column(&h, "d"), Column::Absent);
    assert_eq!(find_column(&h, "A"), Column::Absent);
    assert_eq!(find_column(&Vec::new(), "a"), Column::Absent);
    assert_eq!(
        find_columns(&header()),
        Columns {
            rtt_mono_us: Column::At(9),
            tick_to_send_us: Column::At(11),
            tick_to_ack_us: Column::At(12),
            ack_delta_prev_us: Column::At(18),
        }
    );
}
