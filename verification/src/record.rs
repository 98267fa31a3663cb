//! The persisted form of a sample: one record of nineteen text fields, in
//! the order of the header.
//!
//! Text goes into its field as it is. A number is written in decimal, with a
//! leading `-` where it is negative. An absent value is the empty field. What
//! is read back from a record is what was written into it, with one
//! exception that the form cannot avoid: an optional text that is present
//! but empty reads back as absent.
//!
//! On disk a record is one line of comma-separated values. Quoting and
//! splitting are left to the `csv` crate; this module decides what stands in
//! the fields.
//!
//! The summary reads a persisted table by its header: it looks the four
//! columns it needs up by name, so other columns and another order do no
//! harm. A cell of those columns may also hold a hexadecimal number after
//! the prefix `0x`. Where the header cannot be read as text, the four
//! columns are taken to be the first four.

use crate::latency::RoundtripSample;
use crate::summary::SampleRow;
use vstd::prelude::*;
use vstd::string::StringExecFns;
use vstd::string::StrSliceExecFns;

verus! {

/// The number of fields of a record.
pub const FIELDS: usize = 19;

/// The character of a decimal digit.
pub open spec fn digit_char(d: int) -> char {
    if d == 0 {
        '0'
    } else if d == 1 {
        '1'
    } else if d == 2 {
        '2'
    } else if d == 3 {
        '3'
    } else if d == 4 {
        '4'
    } else if d == 5 {
        '5'
    } else if d == 6 {
        '6'
    } else if d == 7 {
        '7'
    } else if d == 8 {
        '8'
    } else {
        '9'
    }
}

/// The digit that a character stands for, if it is one.
pub open spec fn digit_value(c: char) -> Option<int> {
    if c == '0' {
        Some(0)
    } else if c == '1' {
        Some(1)
    } else if c == '2' {
        Some(2)
    } else if c == '3' {
        Some(3)
    } else if c == '4' {
        Some(4)
    } else if c == '5' {
        Some(5)
    } else if c == '6' {
        Some(6)
    } else if c == '7' {
        Some(7)
    } else if c == '8' {
        Some(8)
    } else if c == '9' {
        Some(9)
    } else {
        None
    }
}

/// The decimal digits of a natural number, without leading zeros.
pub open spec fn digits(n: nat) -> Seq<char>
    decreases n,
{
    if n < 10 {
        seq![digit_char(n as int)]
    } else {
        digits(n / 10).push(digit_char((n % 10) as int))
    }
}

/// The decimal text of an integer.
pub open spec fn decimal(n: int) -> Seq<char> {
    if n < 0 {
        seq!['-'] + digits((-n) as nat)
    } else {
        digits(n as nat)
    }
}

/// The digit that a character stands for among the sixteen hexadecimal
/// ones, in either case of the letters.
pub open spec fn hex_digit_value(c: char) -> Option<int> {
    if digit_value(c).is_some() {
        digit_value(c)
    } else if c == 'a' || c == 'A' {
        Some(10)
    } else if c == 'b' || c == 'B' {
        Some(11)
    } else if c == 'c' || c == 'C' {
        Some(12)
    } else if c == 'd' || c == 'D' {
        Some(13)
    } else if c == 'e' || c == 'E' {
        Some(14)
    } else if c == 'f' || c == 'F' {
        Some(15)
    } else {
        None
    }
}

/// The digit that a character stands for, in decimal or in hexadecimal.
pub open spec fn digit_in(c: char, hex: bool) -> Option<int> {
    if hex {
        hex_digit_value(c)
    } else {
        digit_value(c)
    }
}

/// Ten, or sixteen.
pub open spec fn base_of(hex: bool) -> int {
    if hex {
        16
    } else {
        10
    }
}

/// The number that a run of digits stands for; `None` for an empty run and
/// for one that holds anything but digits.
pub open spec fn value_in(s: Seq<char>, hex: bool) -> Option<nat>
    decreases s.len(),
{
    if s.len() == 0 {
        None
    } else if s.len() == 1 {
        match digit_in(s[0], hex) {
            Some(d) => Some(d as nat),
            None => None,
        }
    } else {
        match (value_in(s.drop_last(), hex), digit_in(s.last(), hex)) {
            (Some(high), Some(d)) => Some((high * base_of(hex) + d) as nat),
            _ => None,
        }
    }
}

/// The `i64` that a text stands for: digits after an optional sign, within
/// the range of the type.
pub open spec fn signed_in(s: Seq<char>, hex: bool) -> Option<i64> {
    if s.len() > 0 && s[0] == '-' {
        match value_in(s.skip(1), hex) {
            Some(v) => if v <= 0x8000_0000_0000_0000 {
                Some((-(v as int)) as i64)
            } else {
                None
            },
            None => None,
        }
    } else if s.len() > 0 && s[0] == '+' {
        match value_in(s.skip(1), hex) {
            Some(v) => if v <= i64::MAX {
                Some(v as i64)
            } else {
                None
            },
            None => None,
        }
    } else {
        match value_in(s, hex) {
            Some(v) => if v <= i64::MAX {
                Some(v as i64)
            } else {
                None
            },
            None => None,
        }
    }
}

/// The number that a run of decimal digits stands for.
pub open spec fn digits_value(s: Seq<char>) -> Option<nat> {
    value_in(s, false)
}

/// The `i64` that a decimal text stands for.
pub open spec fn parse_decimal(s: Seq<char>) -> Option<i64> {
    signed_in(s, false)
}

/// The `i64` that a cell of a table stands for: hexadecimal after the
/// prefix `0x`, decimal otherwise.
pub open spec fn parse_cell(s: Seq<char>) -> Option<i64> {
    if s.len() >= 2 && s[0] == '0' && s[1] == 'x' {
        signed_in(s.skip(2), true)
    } else {
        parse_decimal(s)
    }
}

/// The field of an optional number: empty where it is absent.
pub open spec fn optional_decimal(n: Option<i64>) -> Seq<char> {
    match n {
        Some(v) => decimal(v as int),
        None => Seq::empty(),
    }
}

/// The field of an optional text: empty where it is absent.
pub open spec fn optional_text(t: Option<Seq<char>>) -> Seq<char> {
    match t {
        Some(v) => v,
        None => Seq::empty(),
    }
}

/// The optional text that a field stands for: absent where it is empty.
pub open spec fn read_optional_text(f: Seq<char>) -> Option<Seq<char>> {
    if f.len() == 0 {
        None
    } else {
        Some(f)
    }
}

/// The optional number that a field stands for: absent where the field is
/// empty. The outer `None` says that the field is no number.
pub open spec fn read_optional_decimal(f: Seq<char>) -> Option<Option<i64>> {
    if f.len() == 0 {
        Some(None)
    } else {
        match parse_decimal(f) {
            Some(v) => Some(Some(v)),
            None => None,
        }
    }
}

/// A sample as plain values.
pub ghost struct SampleView {
    pub op_type: Seq<char>,
    pub rpc_method: Seq<char>,
    pub instrument_name: Seq<char>,
    pub order_id: Option<Seq<char>>,
    pub tick_ts_mono_ns: Option<i64>,
    pub send_ts_mono_ns: i64,
    pub recv_ts_mono_ns: i64,
    pub send_ts_wall_iso: Seq<char>,
    pub recv_ts_wall_iso: Seq<char>,
    pub rtt_mono_us: i64,
    pub rtt_wall_us: i64,
    pub tick_to_send_us: Option<i64>,
    pub tick_to_ack_us: Option<i64>,
    pub engine_us_in: Option<i64>,
    pub engine_us_out: Option<i64>,
    pub engine_us_diff: Option<i64>,
    pub error_code: Option<i64>,
    pub error_msg: Option<Seq<char>>,
    pub ack_delta_prev_us: Option<i64>,
}

impl View for RoundtripSample {
    type V = SampleView;

    open spec fn view(&self) -> SampleView {
        SampleView {
            op_type: self.op_type@,
            rpc_method: self.rpc_method@,
            instrument_name: self.instrument_name@,
            order_id: match self.order_id {
                Some(t) => Some(t@),
                None => None,
            },
            tick_ts_mono_ns: self.tick_ts_mono_ns,
            send_ts_mono_ns: self.send_ts_mono_ns,
            recv_ts_mono_ns: self.recv_ts_mono_ns,
            send_ts_wall_iso: self.send_ts_wall_iso@,
            recv_ts_wall_iso: self.recv_ts_wall_iso@,
            rtt_mono_us: self.rtt_mono_us,
            rtt_wall_us: self.rtt_wall_us,
            tick_to_send_us: self.tick_to_send_us,
            tick_to_ack_us: self.tick_to_ack_us,
            engine_us_in: self.engine_us_in,
            engine_us_out: self.engine_us_out,
            engine_us_diff: self.engine_us_diff,
            error_code: self.error_code,
            error_msg: match self.error_msg {
                Some(t) => Some(t@),
                None => None,
            },
            ack_delta_prev_us: self.ack_delta_prev_us,
        }
    }
}

/// The record of a sample.
pub open spec fn spec_record(v: SampleView) -> Seq<Seq<char>> {
    seq![
        v.op_type,
        v.rpc_method,
        v.instrument_name,
        optional_text(v.order_id),
        optional_decimal(v.tick_ts_mono_ns),
        decimal(v.send_ts_mono_ns as int),
        decimal(v.recv_ts_mono_ns as int),
        v.send_ts_wall_iso,
        v.recv_ts_wall_iso,
        decimal(v.rtt_mono_us as int),
        decimal(v.rtt_wall_us as int),
        optional_decimal(v.tick_to_send_us),
        optional_decimal(v.tick_to_ack_us),
        optional_decimal(v.engine_us_in),
        optional_decimal(v.engine_us_out),
        optional_decimal(v.engine_us_diff),
        optional_decimal(v.error_code),
        optional_text(v.error_msg),
        optional_decimal(v.ack_delta_prev_us),
    ]
}

/// Every numeric field of the record reads as what its column holds.
pub open spec fn numbers_readable(r: Seq<Seq<char>>) -> bool {
    &&& read_optional_decimal(r[4]).is_some()
    &&& parse_decimal(r[5]).is_some()
    &&& parse_decimal(r[6]).is_some()
    &&& parse_decimal(r[9]).is_some()
    &&& parse_decimal(r[10]).is_some()
    &&& read_optional_decimal(r[11]).is_some()
    &&& read_optional_decimal(r[12]).is_some()
    &&& read_optional_decimal(r[13]).is_some()
    &&& read_optional_decimal(r[14]).is_some()
    &&& read_optional_decimal(r[15]).is_some()
    &&& read_optional_decimal(r[16]).is_some()
    &&& read_optional_decimal(r[18]).is_some()
}

/// The sample that a record stands for: `None` unless it has nineteen fields
/// and every numeric field reads as a number.
pub open spec fn spec_sample_of(r: Seq<Seq<char>>) -> Option<SampleView> {
    if r.len() == 19 && numbers_readable(r) {
        Some(
            SampleView {
                op_type: r[0],
                rpc_method: r[1],
                instrument_name: r[2],
                order_id: read_optional_text(r[3]),
                tick_ts_mono_ns: read_optional_decimal(r[4]).unwrap(),
                send_ts_mono_ns: parse_decimal(r[5]).unwrap(),
                recv_ts_mono_ns: parse_decimal(r[6]).unwrap(),
                send_ts_wall_iso: r[7],
                recv_ts_wall_iso: r[8],
                rtt_mono_us: parse_decimal(r[9]).unwrap(),
                rtt_wall_us: parse_decimal(r[10]).unwrap(),
                tick_to_send_us: read_optional_decimal(r[11]).unwrap(),
                tick_to_ack_us: read_optional_decimal(r[12]).unwrap(),
                engine_us_in: read_optional_decimal(r[13]).unwrap(),
                engine_us_out: read_optional_decimal(r[14]).unwrap(),
                engine_us_diff: read_optional_decimal(r[15]).unwrap(),
                error_code: read_optional_decimal(r[16]).unwrap(),
                error_msg: read_optional_text(r[17]),
                ack_delta_prev_us: read_optional_decimal(r[18]).unwrap(),
            },
        )
    } else {
        None
    }
}

/// The fields of a record as sequences of characters.
pub open spec fn fields_of(record: Seq<String>) -> Seq<Seq<char>> {
    record.map_values(|f: String| f@)
}

/// The digits of a number read back as that number, and they begin with a
/// digit.
pub proof fn lemma_digits_read_back(n: nat)
    ensures
        digits(n).len() >= 1,
        digits_value(digits(n)) == Some(n),
        digit_value(digits(n)[0]).is_some(),
    decreases n,
{
    if n >= 10 {
        lemma_digits_read_back(n / 10);
        let high = digits(n / 10);
        let all = digits(n);
        assert(all.drop_last() =~= high);
        assert(all.last() == digit_char((n % 10) as int));
        assert(all[0] == high[0]);
    }
}

/// Writing a number and reading the text gives the number back.
pub proof fn law_decimal_reads_back(n: i64)
    ensures
        decimal(n as int).len() >= 1,
        parse_decimal(decimal(n as int)) == Some(n),
        read_optional_decimal(decimal(n as int)) == Some(Some(n)),
{
    if n < 0 {
        let m = (-(n as int)) as nat;
        lemma_digits_read_back(m);
        let t = decimal(n as int);
        assert(t[0] == '-');
        assert(t.skip(1) =~= digits(m));
    } else {
        lemma_digits_read_back(n as nat);
    }
}

/// Writing an optional number and reading the field gives it back.
pub proof fn law_optional_decimal_reads_back(n: Option<i64>)
    ensures
        read_optional_decimal(optional_decimal(n)) == Some(n),
{
    if n.is_some() {
        law_decimal_reads_back(n.unwrap());
    }
}

/// A sample that is written to a record and read back is the same sample,
/// field for field, provided that no optional text in it is present but
/// empty.
pub proof fn law_record_reads_back(v: SampleView)
    requires
        v.order_id != Some(Seq::<char>::empty()),
        v.error_msg != Some(Seq::<char>::empty()),
    ensures
        spec_record(v).len() == 19,
        spec_sample_of(spec_record(v)) == Some(v),
{
    law_optional_decimal_reads_back(v.tick_ts_mono_ns);
    law_decimal_reads_back(v.send_ts_mono_ns);
    law_decimal_reads_back(v.recv_ts_mono_ns);
    law_decimal_reads_back(v.rtt_mono_us);
    law_decimal_reads_back(v.rtt_wall_us);
    law_optional_decimal_reads_back(v.tick_to_send_us);
    law_optional_decimal_reads_back(v.tick_to_ack_us);
    law_optional_decimal_reads_back(v.engine_us_in);
    law_optional_decimal_reads_back(v.engine_us_out);
    law_optional_decimal_reads_back(v.engine_us_diff);
    law_optional_decimal_reads_back(v.error_code);
    law_optional_decimal_reads_back(v.ack_delta_prev_us);
    let r = spec_record(v);
    assert(read_optional_text(r[3]) == v.order_id) by {
        if v.order_id.is_some() {
            assert(!(v.order_id.unwrap() =~= Seq::<char>::empty()));
        }
    }
    assert(read_optional_text(r[17]) == v.error_msg) by {
        if v.error_msg.is_some() {
            assert(!(v.error_msg.unwrap() =~= Seq::<char>::empty()));
        }
    }
}

/// A run of digits that reads as a number does so in every prefix, and no
/// prefix stands for more than the whole.
proof fn lemma_prefix_reads(s: Seq<char>, hex: bool, k: int)
    requires
        1 <= k <= s.len(),
        value_in(s, hex).is_some(),
    ensures
        value_in(s.take(k), hex).is_some(),
        value_in(s.take(k), hex).unwrap() <= value_in(s, hex).unwrap(),
    decreases s.len(),
{
    if k == s.len() {
        assert(s.take(k) =~= s);
    } else {
        assert(s.drop_last().take(k) =~= s.take(k));
        lemma_prefix_reads(s.drop_last(), hex, k);
    }
}

/// One more digit: the value of a prefix from the value of the prefix before
/// it.
proof fn lemma_next_digit(s: Seq<char>, hex: bool, j: int)
    requires
        0 <= j < s.len(),
        j > 0 ==> value_in(s.take(j), hex).is_some(),
    ensures
        value_in(s.take(j + 1), hex) == match digit_in(s[j], hex) {
            Some(d) => Some(
                ((if j > 0 {
                    value_in(s.take(j), hex).unwrap()
                } else {
                    0
                }) * base_of(hex) + d) as nat,
            ),
            None => None,
        },
{
    let t = s.take(j + 1);
    assert(t.last() == s[j]);
    if j > 0 {
        assert(t.drop_last() =~= s.take(j));
    } else {
        assert(t[0] == s[0]);
    }
}

fn digit_str(d: u64) -> (r: &'static str)
    requires
        d < 10,
    ensures
        r@.len() == 1,
        r@[0] == digit_char(d as int),
{
    proof {
        reveal_strlit("0");
        reveal_strlit("1");
        reveal_strlit("2");
        reveal_strlit("3");
        reveal_strlit("4");
        reveal_strlit("5");
        reveal_strlit("6");
        reveal_strlit("7");
        reveal_strlit("8");
        reveal_strlit("9");
    }
    if d == 0 {
        "0"
    } else if d == 1 {
        "1"
    } else if d == 2 {
        "2"
    } else if d == 3 {
        "3"
    } else if d == 4 {
        "4"
    } else if d == 5 {
        "5"
    } else if d == 6 {
        "6"
    } else if d == 7 {
        "7"
    } else if d == 8 {
        "8"
    } else {
        "9"
    }
}

fn digit_of(c: char, hex: bool) -> (r: Option<u64>)
    ensures
        match r {
            Some(d) => digit_in(c, hex) == Some(d as int) && d < base_of(hex),
            None => digit_in(c, hex) is None,
        },
{
    if c == '0' {
        Some(0)
    } else if c == '1' {
        Some(1)
    } else if c == '2' {
        Some(2)
    } else if c == '3' {
        Some(3)
    } else if c == '4' {
        Some(4)
    } else if c == '5' {
        Some(5)
    } else if c == '6' {
        Some(6)
    } else if c == '7' {
        Some(7)
    } else if c == '8' {
        Some(8)
    } else if c == '9' {
        Some(9)
    } else if !hex {
        None
    } else if c == 'a' || c == 'A' {
        Some(10)
    } else if c == 'b' || c == 'B' {
        Some(11)
    } else if c == 'c' || c == 'C' {
        Some(12)
    } else if c == 'd' || c == 'D' {
        Some(13)
    } else if c == 'e' || c == 'E' {
        Some(14)
    } else if c == 'f' || c == 'F' {
        Some(15)
    } else {
        None
    }
}

fn push_digits(out: &mut String, n: u64)
    ensures
        final(out)@ == old(out)@ + digits(n as nat),
    decreases n,
{
    if n >= 10 {
        push_digits(out, n / 10);
    }
    let d = digit_str(n % 10);
    out.append(d);
    proof {
        assert(d@ =~= seq![digit_char((n % 10) as int)]);
        assert(out@ =~= old(out)@ + digits(n as nat));
    }
}

/// Writes a natural number in decimal.
pub fn format_u64(n: u64) -> (r: String)
    ensures
        r@ == digits(n as nat),
{
    let mut out = String::new();
    push_digits(&mut out, n);
    proof {
        assert(out@ =~= digits(n as nat));
    }
    out
}

/// Writes an integer in decimal.
pub fn format_i64(n: i64) -> (r: String)
    ensures
        r@ == decimal(n as int),
{
    let mut out = String::new();
    if n < 0 {
        proof {
            reveal_strlit("-");
        }
        out.append("-");
        let m: u64 = (-(n as i128)) as u64;
        push_digits(&mut out, m);
        proof {
            assert(out@ =~= decimal(n as int));
        }
    } else {
        push_digits(&mut out, n as u64);
        proof {
            assert(out@ =~= decimal(n as int));
        }
    }
    out
}

fn parse_signed(s: &str, from: usize, hex: bool) -> (r: Option<i64>)
    requires
        from <= s@.len(),
    ensures
        r == signed_in(s@.skip(from as int), hex),
{
    let n: usize = s.unicode_len();
    let ghost whole = s@.skip(from as int);
    if n == from {
        return None;
    }
    let first = s.get_char(from);
    let negative = first == '-';
    let start: usize = if first == '-' || first == '+' {
        from + 1
    } else {
        from
    };
    let ghost body = s@.skip(start as int);
    proof {
        assert(whole[0] == first);
        if start == from {
            assert(body =~= whole);
        } else {
            assert(body =~= whole.skip(1));
        }
    }
    if start == n {
        return None;
    }
    let base: u128 = if hex {
        16
    } else {
        10
    };
    let limit: u64 = if negative {
        0x8000_0000_0000_0000
    } else {
        0x7fff_ffff_ffff_ffff
    };
    let mut acc: u64 = 0;
    let mut i: usize = start;
    while i < n
        invariant
            from <= start <= i <= n,
            n == s@.len(),
            body == s@.skip(start as int),
            i > start ==> value_in(body.take(i - start), hex) == Some(acc as nat),
            i == start ==> acc == 0,
            acc <= limit,
            base == base_of(hex),
            from < n,
            whole == s@.skip(from as int),
            negative == (whole[0] == '-'),
            start == from ==> body == whole && whole[0] != '-' && whole[0] != '+',
            start != from ==> body == whole.skip(1) && (whole[0] == '-' || whole[0] == '+'),
            limit == (if negative {
                0x8000_0000_0000_0000u64
            } else {
                0x7fff_ffff_ffff_ffffu64
            }),
        decreases n - i,
    {
        let c = s.get_char(i);
        proof {
            lemma_next_digit(body, hex, i - start);
            if value_in(body, hex).is_some() {
                lemma_prefix_reads(body, hex, i - start + 1);
            }
        }
        match digit_of(c, hex) {
            None => {
                return None;
            },
            Some(d) => {
                let next: u128 = (acc as u128) * base + (d as u128);
                if next > limit as u128 {
                    return None;
                }
                acc = next as u64;
            },
        }
        i += 1;
    }
    proof {
        assert(body.take(n - start) =~= body);
    }
    if negative {
        Some((-(acc as i128)) as i64)
    } else {
        Some(acc as i64)
    }
}

/// Reads a decimal integer: digits after an optional sign. Anything else,
/// and a number outside the range of `i64`, gives `None`.
pub fn parse_i64(s: &str) -> (r: Option<i64>)
    ensures
        r == parse_decimal(s@),
{
    proof {
        assert(s@.skip(0) =~= s@);
    }
    parse_signed(s, 0, false)
}

/// Reads the integer in a cell of a table: hexadecimal digits after the
/// prefix `0x`, decimal digits otherwise, in both cases after an optional
/// sign and within the range of `i64`.
pub fn read_cell(s: &str) -> (r: Option<i64>)
    ensures
        r == parse_cell(s@),
{
    let n: usize = s.unicode_len();
    if n >= 2 && s.get_char(0) == '0' && s.get_char(1) == 'x' {
        parse_signed(s, 2, true)
    } else {
        proof {
            assert(s@.skip(0) =~= s@);
        }
        parse_signed(s, 0, false)
    }
}

fn optional_number_field(n: Option<i64>) -> (r: String)
    ensures
        r@ == optional_decimal(n),
{
    match n {
        Some(v) => format_i64(v),
        None => String::new(),
    }
}

fn optional_text_field(t: &Option<String>) -> (r: String)
    ensures
        r@ == optional_text(
            match *t {
                Some(v) => Some(v@),
                None => None,
            },
        ),
{
    match t {
        Some(v) => v.clone(),
        None => String::new(),
    }
}

fn read_text_field(f: &String) -> (r: Option<String>)
    ensures
        match r {
            Some(v) => read_optional_text(f@) == Some(v@),
            None => read_optional_text(f@) is None,
        },
{
    if f.as_str().is_empty() {
        None
    } else {
        Some(f.clone())
    }
}

fn read_number_field(f: &String) -> (r: Option<Option<i64>>)
    ensures
        r == read_optional_decimal(f@),
{
    if f.as_str().is_empty() {
        Some(None)
    } else {
        match parse_i64(f.as_str()) {
            Some(v) => Some(Some(v)),
            None => None,
        }
    }
}

/// The names of the nineteen columns, in the order of a record's fields.
pub open spec fn spec_header() -> Seq<Seq<char>> {
    seq![
        "op_type"@,
        "rpc_method"@,
        "instrument_name"@,
        "order_id"@,
        "tick_ts_mono_ns"@,
        "send_ts_mono_ns"@,
        "recv_ts_mono_ns"@,
        "send_ts_wall_iso"@,
        "recv_ts_wall_iso"@,
        "rtt_mono_us"@,
        "rtt_wall_us"@,
        "tick_to_send_us"@,
        "tick_to_ack_us"@,
        "engine_us_in"@,
        "engine_us_out"@,
        "engine_us_diff"@,
        "error_code"@,
        "error_msg"@,
        "ack_delta_prev_us"@,
    ]
}

/// The header that stands before the first record.
pub fn header() -> (r: Vec<String>)
    ensures
        fields_of(r@) == spec_header(),
{
    let mut r: Vec<String> = Vec::new();
    r.push(String::from_str("op_type"));
    r.push(String::from_str("rpc_method"));
    r.push(String::from_str("instrument_name"));
    r.push(String::from_str("order_id"));
    r.push(String::from_str("tick_ts_mono_ns"));
    r.push(String::from_str("send_ts_mono_ns"));
    r.push(String::from_str("recv_ts_mono_ns"));
    r.push(String::from_str("send_ts_wall_iso"));
    r.push(String::from_str("recv_ts_wall_iso"));
    r.push(String::from_str("rtt_mono_us"));
    r.push(String::from_str("rtt_wall_us"));
    r.push(String::from_str("tick_to_send_us"));
    r.push(String::from_str("tick_to_ack_us"));
    r.push(String::from_str("engine_us_in"));
    r.push(String::from_str("engine_us_out"));
    r.push(String::from_str("engine_us_diff"));
    r.push(String::from_str("error_code"));
    r.push(String::from_str("error_msg"));
    r.push(String::from_str("ack_delta_prev_us"));
    proof {
        assert(fields_of(r@) =~= spec_header());
    }
    r
}

/// Writes a sample as a record.
pub fn to_record(sample: &RoundtripSample) -> (r: Vec<String>)
    ensures
        fields_of(r@) == spec_record(sample@),
{
    let mut r: Vec<String> = Vec::new();
    r.push(sample.op_type.clone());
    r.push(sample.rpc_method.clone());
    r.push(sample.instrument_name.clone());
    r.push(optional_text_field(&sample.order_id));
    r.push(optional_number_field(sample.tick_ts_mono_ns));
    r.push(format_i64(sample.send_ts_mono_ns));
    r.push(format_i64(sample.recv_ts_mono_ns));
    r.push(sample.send_ts_wall_iso.clone());
    r.push(sample.recv_ts_wall_iso.clone());
    r.push(format_i64(sample.rtt_mono_us));
    r.push(format_i64(sample.rtt_wall_us));
    r.push(optional_number_field(sample.tick_to_send_us));
    r.push(optional_number_field(sample.tick_to_ack_us));
    r.push(optional_number_field(sample.engine_us_in));
    r.push(optional_number_field(sample.engine_us_out));
    r.push(optional_number_field(sample.engine_us_diff));
    r.push(optional_number_field(sample.error_code));
    r.push(optional_text_field(&sample.error_msg));
    r.push(optional_number_field(sample.ack_delta_prev_us));
    proof {
        assert(fields_of(r@) =~= spec_record(sample@));
    }
    r
}

/// Reads a sample from a record as `to_record` writes it: `None` unless the
/// record has nineteen fields and every numeric field reads as a decimal
/// number.
pub fn from_record(record: &Vec<String>) -> (r: Option<RoundtripSample>)
    ensures
        match r {
            Some(sample) => spec_sample_of(fields_of(record@)) == Some(sample@),
            None => spec_sample_of(fields_of(record@)) is None,
        },
{
    if record.len() != FIELDS {
        return None;
    }
    let tick_ts_mono_ns = match read_number_field(&record[4]) {
        Some(v) => v,
        None => {
            return None;
        },
    };
    let send_ts_mono_ns = match parse_i64(record[5].as_str()) {
        Some(v) => v,
        None => {
            return None;
        },
    };
    let recv_ts_mono_ns = match parse_i64(record[6].as_str()) {
        Some(v) => v,
        None => {
            return None;
        },
    };
    let rtt_mono_us = match parse_i64(record[9].as_str()) {
        Some(v) => v,
        None => {
            return None;
        },
    };
    let rtt_wall_us = match parse_i64(record[10].as_str()) {
        Some(v) => v,
        None => {
            return None;
        },
    };
    let tick_to_send_us = match read_number_field(&record[11]) {
        Some(v) => v,
        None => {
            return None;
        },
    };
    let tick_to_ack_us = match read_number_field(&record[12]) {
        Some(v) => v,
        None => {
            return None;
        },
    };
    let engine_us_in = match read_number_field(&record[13]) {
        Some(v) => v,
        None => {
            return None;
        },
    };
    let engine_us_out = match read_number_field(&record[14]) {
        Some(v) => v,
        None => {
            return None;
        },
    };
    let engine_us_diff = match read_number_field(&record[15]) {
        Some(v) => v,
        None => {
            return None;
        },
    };
    let error_code = match read_number_field(&record[16]) {
        Some(v) => v,
        None => {
            return None;
        },
    };
    let ack_delta_prev_us = match read_number_field(&record[18]) {
        Some(v) => v,
        None => {
            return None;
        },
    };
    Some(
        RoundtripSample {
            op_type: record[0].clone(),
            rpc_method: record[1].clone(),
            instrument_name: record[2].clone(),
            order_id: read_text_field(&record[3]),
            tick_ts_mono_ns,
            send_ts_mono_ns,
            recv_ts_mono_ns,
            send_ts_wall_iso: record[7].clone(),
            recv_ts_wall_iso: record[8].clone(),
            rtt_mono_us,
            rtt_wall_us,
            tick_to_send_us,
            tick_to_ack_us,
            engine_us_in,
            engine_us_out,
            engine_us_diff,
            error_code,
            error_msg: read_text_field(&record[17]),
            ack_delta_prev_us,
        },
    )
}

/// The columns of a sample that the summary reads.
pub fn row_of_sample(sample: &RoundtripSample) -> (r: SampleRow)
    ensures
        r == (SampleRow {
            rtt_mono_us: sample.rtt_mono_us,
            tick_to_send_us: sample.tick_to_send_us,
            tick_to_ack_us: sample.tick_to_ack_us,
            ack_delta_prev_us: sample.ack_delta_prev_us,
        }),
{
    SampleRow {
        rtt_mono_us: sample.rtt_mono_us,
        tick_to_send_us: sample.tick_to_send_us,
        tick_to_ack_us: sample.tick_to_ack_us,
        ack_delta_prev_us: sample.ack_delta_prev_us,
    }
}


/// The line, terminator included, that a `csv::Writer` with default settings
/// writes for one record; `None` where it reports an error.
pub uninterp spec fn csv_line(fields: Seq<Seq<char>>) -> Option<Seq<u8>>;

/// The header that a `csv::Reader` with default settings finds in a text:
/// its first record, and an empty one for an empty text. `None` where it
/// reports an error, as it does for a header that is not UTF-8.
pub uninterp spec fn csv_header(text: Seq<u8>) -> Option<Seq<Seq<char>>>;

/// The records after the header that a `csv::Reader` with default settings
/// finds in a text; `None` where it reports an error on any of them.
pub uninterp spec fn csv_rows(text: Seq<u8>) -> Option<Seq<Seq<Seq<char>>>>;

/// The records of a table as sequences of fields.
pub open spec fn records_of(table: Seq<Vec<String>>) -> Seq<Seq<Seq<char>>> {
    table.map_values(|r: Vec<String>| fields_of(r@))
}

/// Writes one record into memory with `csv::Writer::write_record` and takes
/// the bytes out with `into_inner`.
#[verifier::external_body]
fn encode_line(fields: &Vec<String>) -> (r: Option<Vec<u8>>)
    ensures
        r.is_some() == csv_line(fields_of(fields@)).is_some(),
        r.is_some() ==> r.unwrap()@ == csv_line(fields_of(fields@)).unwrap(),
{
    let mut writer = csv::Writer::from_writer(Vec::new());
    writer.write_record(fields).ok()?;
    writer.into_inner().ok()
}

/// Calls `csv::Reader::headers` on a reader over the text and copies the
/// fields of the header.
#[verifier::external_body]
fn read_header(text: &[u8]) -> (r: Option<Vec<String>>)
    ensures
        r.is_some() == csv_header(text@).is_some(),
        r.is_some() ==> fields_of(r.unwrap()@) == csv_header(text@).unwrap(),
{
    let mut reader = csv::Reader::from_reader(text);
    let header = reader.headers().ok()?;
    Some(header.iter().map(|f| f.to_string()).collect())
}

/// Reads a text with `csv::Reader::records`, which passes over the header
/// and yields the records after it.
#[verifier::external_body]
fn read_rows(text: &[u8]) -> (r: Option<Vec<Vec<String>>>)
    ensures
        r.is_some() == csv_rows(text@).is_some(),
        r.is_some() ==> records_of(r.unwrap()@) == csv_rows(text@).unwrap(),
{
    let mut reader = csv::Reader::from_reader(text);
    let mut table: Vec<Vec<String>> = Vec::new();
    for record in reader.records() {
        table.push(record.ok()?.iter().map(|f| f.to_string()).collect());
    }
    Some(table)
}

/// The line that persists a sample.
pub fn sample_line(sample: &RoundtripSample) -> (r: Option<Vec<u8>>)
    ensures
        r.is_some() == csv_line(spec_record(sample@)).is_some(),
        r.is_some() ==> r.unwrap()@ == csv_line(spec_record(sample@)).unwrap(),
{
    let fields = to_record(sample);
    encode_line(&fields)
}

/// The line that stands before the first sample.
pub fn header_line() -> (r: Option<Vec<u8>>)
    ensures
        r.is_some() == csv_line(spec_header()).is_some(),
        r.is_some() ==> r.unwrap()@ == csv_line(spec_header()).unwrap(),
{
    let fields = header();
    encode_line(&fields)
}

/// Where a name stands in a header.
#[derive(Clone, Copy, Debug, PartialEq, Eq)]
pub enum Column {
    /// No column has the name.
    Absent,
    /// The one column that has the name, counted from zero.
    At(usize),
    /// More than one column has the name.
    Twice,
}

/// Where the four columns that the summary reads stand in a header.
#[derive(Clone, Copy, Debug, PartialEq, Eq)]
pub struct Columns {
    pub rtt_mono_us: Column,
    pub tick_to_send_us: Column,
    pub tick_to_ack_us: Column,
    pub ack_delta_prev_us: Column,
}

/// Column `i` of the header has the name.
pub open spec fn named(header: Seq<Seq<char>>, name: Seq<char>, i: int) -> bool {
    0 <= i < header.len() && header[i] == name
}

/// `c` says where the name stands in the header.
pub open spec fn locates(c: Column, header: Seq<Seq<char>>, name: Seq<char>) -> bool {
    match c {
        Column::Absent => forall|i: int| !named(header, name, i),
        Column::At(k) => named(header, name, k as int) && forall|i: int|
            named(header, name, i) ==> i == k,
        Column::Twice => exists|i: int, j: int|
            i != j && named(header, name, i) && named(header, name, j),
    }
}

/// `cols` says where the four columns stand in the header.
pub open spec fn columns_of(cols: Columns, header: Seq<Seq<char>>) -> bool {
    &&& locates(cols.rtt_mono_us, header, "rtt_mono_us"@)
    &&& locates(cols.tick_to_send_us, header, "tick_to_send_us"@)
    &&& locates(cols.tick_to_ack_us, header, "tick_to_ack_us"@)
    &&& locates(cols.ack_delta_prev_us, header, "ack_delta_prev_us"@)
}

/// The number in a column that every row must fill: `None` where the header
/// does not name the column once, or the cell is missing or is no number.
pub open spec fn required_cell(record: Seq<Seq<char>>, c: Column) -> Option<i64> {
    match c {
        Column::At(k) => if k < record.len() {
            parse_cell(record[k as int])
        } else {
            None
        },
        _ => None,
    }
}

/// The number in a column that a row may leave empty. A column that the
/// header does not name gives an absent value, and so does an empty cell.
/// The outer `None` says that the row cannot be read: the header names the
/// column twice, or the cell is missing or is neither empty nor a number.
pub open spec fn optional_cell(record: Seq<Seq<char>>, c: Column) -> Option<Option<i64>> {
    match c {
        Column::Absent => Some(None),
        Column::At(k) => if k < record.len() {
            if record[k as int].len() == 0 {
                Some(None)
            } else {
                match parse_cell(record[k as int]) {
                    Some(v) => Some(Some(v)),
                    None => None,
                }
            }
        } else {
            None
        },
        Column::Twice => None,
    }
}

/// The row that the summary reads from a record, given where the columns
/// stand.
pub open spec fn spec_row_of(record: Seq<Seq<char>>, cols: Columns) -> Option<SampleRow> {
    if required_cell(record, cols.rtt_mono_us).is_some() && optional_cell(record, cols.tick_to_send_us).is_some()
        && optional_cell(record, cols.tick_to_ack_us).is_some() && optional_cell(
        record,
        cols.ack_delta_prev_us,
    ).is_some() {
        Some(
            SampleRow {
                rtt_mono_us: required_cell(record, cols.rtt_mono_us).unwrap(),
                tick_to_send_us: optional_cell(record, cols.tick_to_send_us).unwrap(),
                tick_to_ack_us: optional_cell(record, cols.tick_to_ack_us).unwrap(),
                ack_delta_prev_us: optional_cell(record, cols.ack_delta_prev_us).unwrap(),
            },
        )
    } else {
        None
    }
}

/// `rows` is what the summary reads from `records`: a row for each record,
/// in order, or `None` where some record cannot be read.
pub open spec fn rows_read(rows: Option<Vec<SampleRow>>, records: Seq<Seq<Seq<char>>>, cols: Columns) -> bool {
    match rows {
        Some(found) => {
            &&& found@.len() == records.len()
            &&& forall|k: int|
                0 <= k < records.len() ==> spec_row_of(#[trigger] records[k], cols) == Some(found@[k])
        },
        None => exists|k: int| 0 <= k < records.len() && spec_row_of(#[trigger] records[k], cols) is None,
    }
}

/// The first four columns, for a table whose header cannot be read.
pub open spec fn positional() -> Columns {
    Columns {
        rtt_mono_us: Column::At(0),
        tick_to_send_us: Column::At(1),
        tick_to_ack_us: Column::At(2),
        ack_delta_prev_us: Column::At(3),
    }
}

/// The fields of a header, where there is one.
pub open spec fn header_of(header: Option<Vec<String>>) -> Option<Seq<Seq<char>>> {
    match header {
        Some(h) => Some(fields_of(h@)),
        None => None,
    }
}

/// `rows` is what the summary reads from a persisted table. A table without
/// a record after the header gives no rows, whatever the header holds.
/// Otherwise the four columns are found by their names in the header, and
/// every record gives a row. Where the header could not be read, the four
/// columns are the first four.
pub open spec fn table_read(
    rows: Option<Vec<SampleRow>>,
    header: Option<Seq<Seq<char>>>,
    records: Seq<Seq<Seq<char>>>,
) -> bool {
    if records.len() == 0 {
        rows.is_some() && rows.unwrap()@.len() == 0
    } else {
        if header.is_some() {
            exists|cols: Columns| columns_of(cols, header.unwrap()) && rows_read(rows, records, cols)
        } else {
            rows_read(rows, records, positional())
        }
    }
}

/// Finds the column of a name in a header.
pub fn find_column(header: &Vec<String>, name: &str) -> (c: Column)
    ensures
        locates(c, fields_of(header@), name@),
{
    let wanted = String::from_str(name);
    let ghost fields = fields_of(header@);
    let mut found: Option<usize> = None;
    let mut i: usize = 0;
    while i < header.len()
        invariant
            i <= header@.len(),
            fields == fields_of(header@),
            wanted@ == name@,
            match found {
                Some(f) => f < i && named(fields, name@, f as int) && forall|k: int|
                    0 <= k < i && named(fields, name@, k) ==> k == f,
                None => forall|k: int| 0 <= k < i ==> !named(fields, name@, k),
            },
        decreases header@.len() - i,
    {
        if header[i] == wanted {
            assert(named(fields, name@, i as int));
            match found {
                Some(f) => {
                    assert(f != i && named(fields, name@, f as int) && named(fields, name@, i as int));
                    return Column::Twice;
                },
                None => {
                    found = Some(i);
                },
            }
        }
        i += 1;
    }
    match found {
        Some(f) => Column::At(f),
        None => Column::Absent,
    }
}

/// Finds the four columns that the summary reads.
pub fn find_columns(header: &Vec<String>) -> (cols: Columns)
    ensures
        columns_of(cols, fields_of(header@)),
{
    Columns {
        rtt_mono_us: find_column(header, "rtt_mono_us"),
        tick_to_send_us: find_column(header, "tick_to_send_us"),
        tick_to_ack_us: find_column(header, "tick_to_ack_us"),
        ack_delta_prev_us: find_column(header, "ack_delta_prev_us"),
    }
}

fn read_required(record: &Vec<String>, c: Column) -> (r: Option<i64>)
    ensures
        r == required_cell(fields_of(record@), c),
{
    match c {
        Column::At(k) => {
            if k < record.len() {
                read_cell(record[k].as_str())
            } else {
                None
            }
        },
        _ => None,
    }
}

fn read_optional(record: &Vec<String>, c: Column) -> (r: Option<Option<i64>>)
    ensures
        r == optional_cell(fields_of(record@), c),
{
    match c {
        Column::Absent => Some(None),
        Column::At(k) => {
            if k < record.len() {
                if record[k].as_str().is_empty() {
                    Some(None)
                } else {
                    match read_cell(record[k].as_str()) {
                        Some(v) => Some(Some(v)),
                        None => None,
                    }
                }
            } else {
                None
            }
        },
        Column::Twice => None,
    }
}

/// Reads from a record the four columns that the summary needs.
pub fn row_of_record(record: &Vec<String>, cols: Columns) -> (r: Option<SampleRow>)
    ensures
        r == spec_row_of(fields_of(record@), cols),
{
    let rtt_mono_us = match read_required(record, cols.rtt_mono_us) {
        Some(v) => v,
        None => {
            return None;
        },
    };
    let tick_to_send_us = match read_optional(record, cols.tick_to_send_us) {
        Some(v) => v,
        None => {
            return None;
        },
    };
    let tick_to_ack_us = match read_optional(record, cols.tick_to_ack_us) {
        Some(v) => v,
        None => {
            return None;
        },
    };
    let ack_delta_prev_us = match read_optional(record, cols.ack_delta_prev_us) {
        Some(v) => v,
        None => {
            return None;
        },
    };
    Some(SampleRow { rtt_mono_us, tick_to_send_us, tick_to_ack_us, ack_delta_prev_us })
}

fn rows_by(records: &Vec<Vec<String>>, cols: Columns) -> (rows: Option<Vec<SampleRow>>)
    ensures
        rows_read(rows, records_of(records@), cols),
{
    let mut found: Vec<SampleRow> = Vec::new();
    let mut i: usize = 0;
    while i < records.len()
        invariant
            i <= records@.len(),
            found@.len() == i,
            forall|k: int| 0 <= k < i ==> spec_row_of(#[trigger] records_of(records@)[k], cols) == Some(found@[k]),
        decreases records@.len() - i,
    {
        match row_of_record(&records[i], cols) {
            Some(row) => found.push(row),
            None => {
                assert(spec_row_of(records_of(records@)[i as int], cols) is None);
                return None;
            },
        }
        i += 1;
    }
    Some(found)
}

/// Reads the summary's columns from the records of a table, given its
/// header. A table without records gives no rows. `None` where a record
/// exists and cannot be read: the header does not name `rtt_mono_us` once,
/// or names another of the four columns twice, or a cell of the four is no
/// number. `header` is `None` where the header could not be read; the four
/// columns are then the first four.
pub fn rows_of_table(header: &Option<Vec<String>>, records: &Vec<Vec<String>>) -> (rows: Option<Vec<SampleRow>>)
    ensures
        table_read(rows, header_of(*header), records_of(records@)),
{
    if records.len() == 0 {
        return Some(Vec::new());
    }
    match header {
        Some(h) => {
            let cols = find_columns(h);
            let rows = rows_by(records, cols);
            assert(columns_of(cols, fields_of(h@)) && rows_read(rows, records_of(records@), cols));
            rows
        },
        None => {
            let cols = Columns {
                rtt_mono_us: Column::At(0),
                tick_to_send_us: Column::At(1),
                tick_to_ack_us: Column::At(2),
                ack_delta_prev_us: Column::At(3),
            };
            rows_by(records, cols)
        },
    }
}

/// Reads the summary's columns from persisted text: the first line is the
/// header, every other line a sample. `None` where the text is no table or
/// some line cannot be read.
pub fn rows_of_text(text: &[u8]) -> (rows: Option<Vec<SampleRow>>)
    ensures
        match csv_rows(text@) {
            Some(records) => table_read(rows, csv_header(text@), records),
            None => rows is None,
        },
{
    match read_rows(text) {
        Some(records) => {
            let header = read_header(text);
            rows_of_table(&header, &records)
        },
        None => None,
    }
}

/// Every character of a number's digits is a decimal digit.
proof fn lemma_digits_are_digits(n: nat, i: int)
    requires
        0 <= i < digits(n).len(),
    ensures
        digit_value(digits(n)[i]).is_some(),
    decreases n,
{
    if n >= 10 {
        if i < digits(n / 10).len() {
            lemma_digits_are_digits(n / 10, i);
        }
    }
}

/// A number written in decimal is read back from a cell of a table: what is
/// written never begins with `0x`.
pub proof fn law_cell_reads_back(n: i64)
    ensures
        decimal(n as int).len() >= 1,
        parse_cell(decimal(n as int)) == Some(n),
{
    law_decimal_reads_back(n);
    let t = decimal(n as int);
    if n >= 0 && t.len() >= 2 {
        lemma_digits_are_digits(n as nat, 1);
    }
}

/// What tells the names of the columns apart: the length, and the
/// characters at three places.
spec fn mark(s: Seq<char>) -> (nat, char, char, char) {
    (s.len(), s[0], s[4], s[6])
}

proof fn lemma_header_marks()
    ensures
        spec_header().len() == 19,
        mark(spec_header()[0]) == (7nat, 'o', 'y', 'e'),
        mark(spec_header()[1]) == (10nat, 'r', 'm', 't'),
        mark(spec_header()[2]) == (15nat, 'i', 'r', 'm'),
        mark(spec_header()[3]) == (8nat, 'o', 'r', 'i'),
        mark(spec_header()[4]) == (15nat, 't', '_', 's'),
        mark(spec_header()[5]) == (15nat, 's', '_', 's'),
        mark(spec_header()[6]) == (15nat, 'r', '_', 's'),
        mark(spec_header()[7]) == (16nat, 's', '_', 's'),
        mark(spec_header()[8]) == (16nat, 'r', '_', 's'),
        mark(spec_header()[9]) == (11nat, 'r', 'm', 'n'),
        mark(spec_header()[10]) == (11nat, 'r', 'w', 'l'),
        mark(spec_header()[11]) == (15nat, 't', '_', 'o'),
        mark(spec_header()[12]) == (14nat, 't', '_', 'o'),
        mark(spec_header()[13]) == (12nat, 'e', 'n', '_'),
        mark(spec_header()[14]) == (13nat, 'e', 'n', '_'),
        mark(spec_header()[15]) == (14nat, 'e', 'n', '_'),
        mark(spec_header()[16]) == (10nat, 'e', 'r', 'c'),
        mark(spec_header()[17]) == (9nat, 'e', 'r', 'm'),
        mark(spec_header()[18]) == (17nat, 'a', 'd', 'l'),
{
    reveal_strlit("op_type");
    reveal_strlit("rpc_method");
    reveal_strlit("instrument_name");
    reveal_strlit("order_id");
    reveal_strlit("tick_ts_mono_ns");
    reveal_strlit("send_ts_mono_ns");
    reveal_strlit("recv_ts_mono_ns");
    reveal_strlit("send_ts_wall_iso");
    reveal_strlit("recv_ts_wall_iso");
    reveal_strlit("rtt_mono_us");
    reveal_strlit("rtt_wall_us");
    reveal_strlit("tick_to_send_us");
    reveal_strlit("tick_to_ack_us");
    reveal_strlit("engine_us_in");
    reveal_strlit("engine_us_out");
    reveal_strlit("engine_us_diff");
    reveal_strlit("error_code");
    reveal_strlit("error_msg");
    reveal_strlit("ack_delta_prev_us");
}

/// No two columns of the header have the same name.
proof fn lemma_header_names_differ(i: int, j: int)
    requires
        0 <= i < 19,
        0 <= j < 19,
        i != j,
    ensures
        spec_header()[i] != spec_header()[j],
{
    lemma_header_marks();
    if spec_header()[i] == spec_header()[j] {
        assert(mark(spec_header()[i]) == mark(spec_header()[j]));
    }
}

/// `c` is the column `k` of the header that this module writes, for the
/// name that stands there.
proof fn lemma_located(c: Column, k: int)
    requires
        0 <= k < 19,
        locates(c, spec_header(), spec_header()[k]),
    ensures
        c == Column::At(k as usize),
{
    let h = spec_header();
    assert(named(h, h[k], k));
    assert forall|i: int| named(h, h[k], i) implies i == k by {
        if i != k {
            lemma_header_names_differ(i, k);
        }
    }
}

/// The summary reads from the record of a sample, under the header that
/// this module writes, the four figures that the sample holds.
pub proof fn law_summary_reads_what_is_logged(v: SampleView, cols: Columns)
    requires
        columns_of(cols, spec_header()),
    ensures
        spec_row_of(spec_record(v), cols) == Some(
            SampleRow {
                rtt_mono_us: v.rtt_mono_us,
                tick_to_send_us: v.tick_to_send_us,
                tick_to_ack_us: v.tick_to_ack_us,
                ack_delta_prev_us: v.ack_delta_prev_us,
            },
        ),
{
    lemma_located(cols.rtt_mono_us, 9);
    lemma_located(cols.tick_to_send_us, 11);
    lemma_located(cols.tick_to_ack_us, 12);
    lemma_located(cols.ack_delta_prev_us, 18);
    law_cell_reads_back(v.rtt_mono_us);
    if v.tick_to_send_us.is_some() {
        law_cell_reads_back(v.tick_to_send_us.unwrap());
    }
    if v.tick_to_ack_us.is_some() {
        law_cell_reads_back(v.tick_to_ack_us.unwrap());
    }
    if v.ack_delta_prev_us.is_some() {
        law_cell_reads_back(v.ack_delta_prev_us.unwrap());
    }
}

} // verus!
