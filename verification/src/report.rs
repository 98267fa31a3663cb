//! The lines that report a series: its title, and its figures in columns or
//! "no data".

use crate::record::{decimal, digits, format_i64, format_u64};
use crate::summary::{Metric, Stats};
use vstd::prelude::*;
use vstd::string::StrSliceExecFns;
use vstd::string::StringExecFns;

verus! {

/// A text set flush right in a column of the given width; a text that is
/// wider than the column stays as it is.
pub open spec fn pad_left(s: Seq<char>, width: nat) -> Seq<char> {
    if s.len() >= width {
        s
    } else {
        Seq::new((width - s.len()) as nat, |i: int| ' ') + s
    }
}

/// The line that reports the figures of a series.
pub open spec fn spec_stats_line(stats: Stats) -> Seq<char> {
    "    count: "@ + pad_left(digits(stats.count as nat), 6) + "   min: "@ + pad_left(
        decimal(stats.min as int),
        8,
    ) + " µs   median: "@ + pad_left(decimal(stats.median as int), 8) + " µs   p90: "@ + pad_left(
        decimal(stats.p90 as int),
        8,
    ) + " µs   p99: "@ + pad_left(decimal(stats.p99 as int), 8) + " µs   max: "@ + pad_left(
        decimal(stats.max as int),
        8,
    ) + " µs"@
}

/// The line that reports a series: its figures, or that there are none.
pub open spec fn spec_report_line(stats: Option<Stats>) -> Seq<char> {
    match stats {
        Some(s) => spec_stats_line(s),
        None => "    no data"@,
    }
}

/// The title under which a series is reported.
pub fn label(metric: Metric) -> (title: &'static str)
    ensures
        title@ == match metric {
            Metric::Rtt => "RTT (Send → Ack)"@,
            Metric::TickToSend => "Tick → Send"@,
            Metric::TickToAck => "Tick → Ack"@,
            Metric::AckDelta => "Ack interval (prev Ack → this Ack)"@,
        },
{
    match metric {
        Metric::Rtt => "RTT (Send → Ack)",
        Metric::TickToSend => "Tick → Send",
        Metric::TickToAck => "Tick → Ack",
        Metric::AckDelta => "Ack interval (prev Ack → this Ack)",
    }
}

fn padded(s: String, width: usize) -> (r: String)
    ensures
        r@ == pad_left(s@, width as nat),
{
    let n: usize = s.as_str().unicode_len();
    if n >= width {
        return s;
    }
    proof {
        reveal_strlit(" ");
    }
    let mut out = String::new();
    let mut i: usize = n;
    while i < width
        invariant
            n <= i <= width,
            out@ == Seq::new((i - n) as nat, |k: int| ' '),
            " "@.len() == 1,
            " "@[0] == ' ',
        decreases width - i,
    {
        out.append(" ");
        i += 1;
        proof {
            assert(out@ =~= Seq::new((i - n) as nat, |k: int| ' '));
        }
    }
    out.append(s.as_str());
    out
}

/// Writes the line that reports the figures of a series.
pub fn stats_line(stats: &Stats) -> (line: String)
    ensures
        line@ == spec_stats_line(*stats),
{
    let mut line = String::from_str("    count: ");
    line.append(padded(format_u64(stats.count as u64), 6).as_str());
    line.append("   min: ");
    line.append(padded(format_i64(stats.min), 8).as_str());
    line.append(" µs   median: ");
    line.append(padded(format_i64(stats.median), 8).as_str());
    line.append(" µs   p90: ");
    line.append(padded(format_i64(stats.p90), 8).as_str());
    line.append(" µs   p99: ");
    line.append(padded(format_i64(stats.p99), 8).as_str());
    line.append(" µs   max: ");
    line.append(padded(format_i64(stats.max), 8).as_str());
    line.append(" µs");
    line
}

/// Writes the line that reports a series: "no data" for an empty one.
pub fn report_line(stats: &Option<Stats>) -> (line: String)
    ensures
        line@ == spec_report_line(*stats),
{
    match stats {
        Some(s) => stats_line(s),
        None => String::from_str("    no data"),
    }
}

} // verus!
