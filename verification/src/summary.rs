//! Descriptive statistics over logged samples: count, minimum, median, 90th
//! and 99th percentile and maximum of each latency series.
//!
//! A percentile is the value at a rank of the sorted series; nothing is
//! interpolated. The rank for `p` percent of `n` values is the largest whole
//! number that does not exceed `p / 100 * (n - 1)`, counted from zero.

use vstd::prelude::*;

verus! {

/// The columns of a logged sample that the summary reads.
#[derive(Clone, Copy, Debug, PartialEq, Eq)]
pub struct SampleRow {
    pub rtt_mono_us: i64,
    pub tick_to_send_us: Option<i64>,
    pub tick_to_ack_us: Option<i64>,
    pub ack_delta_prev_us: Option<i64>,
}

/// The four series of a summary.
#[derive(Clone, Copy, Debug, PartialEq, Eq)]
pub enum Metric {
    Rtt,
    TickToSend,
    TickToAck,
    AckDelta,
}

/// The figures reported for one series that is not empty.
#[derive(Clone, Copy, Debug, PartialEq, Eq)]
pub struct Stats {
    pub count: usize,
    pub min: i64,
    pub median: i64,
    pub p90: i64,
    pub p99: i64,
    pub max: i64,
}

/// The figures of all four series; `None` stands for "no data".
#[derive(Clone, Copy, Debug, PartialEq, Eq)]
pub struct Summary {
    pub rtt: Option<Stats>,
    pub tick_to_send: Option<Stats>,
    pub tick_to_ack: Option<Stats>,
    pub ack_delta: Option<Stats>,
}

/// Ascending order, equal neighbours allowed.
pub open spec fn sorted(s: Seq<i64>) -> bool {
    forall|i: int, j: int| 0 <= i <= j < s.len() ==> s[i] <= s[j]
}

/// The rank, counted from zero, of the `p`-th percentile among `n` values.
pub open spec fn rank(p: int, n: int) -> int {
    (p * (n - 1)) / 100
}

/// The `p`-th percentile of a sorted series; zero for an empty one.
pub open spec fn spec_percentile(series: Seq<i64>, p: int) -> i64 {
    if series.len() == 0 {
        0
    } else {
        series[rank(p, series.len() as int)]
    }
}

/// The figures of a sorted series that is not empty.
pub open spec fn spec_stats(series: Seq<i64>) -> Stats {
    Stats {
        count: series.len() as usize,
        min: series[0],
        median: spec_percentile(series, 50),
        p90: spec_percentile(series, 90),
        p99: spec_percentile(series, 99),
        max: series[series.len() - 1],
    }
}

/// What a row contributes to a series: its value in that column, if it has
/// one.
pub open spec fn spec_cell(row: SampleRow, metric: Metric) -> Option<i64> {
    match metric {
        Metric::Rtt => Some(row.rtt_mono_us),
        Metric::TickToSend => row.tick_to_send_us,
        Metric::TickToAck => row.tick_to_ack_us,
        Metric::AckDelta => row.ack_delta_prev_us,
    }
}

/// The values of one column, in the order of the rows, absent ones left out.
pub open spec fn spec_series(rows: Seq<SampleRow>, metric: Metric) -> Seq<i64>
    decreases rows.len(),
{
    if rows.len() == 0 {
        Seq::empty()
    } else {
        let earlier = spec_series(rows.drop_last(), metric);
        match spec_cell(rows.last(), metric) {
            Some(v) => earlier.push(v),
            None => earlier,
        }
    }
}

/// `r` reports the series `s`: "no data" for an empty one, else the figures
/// of `s` put in ascending order.
pub open spec fn describes(r: Option<Stats>, s: Seq<i64>) -> bool {
    match r {
        None => s.len() == 0,
        Some(stats) => s.len() > 0 && exists|t: Seq<i64>|
            sorted(t) && t.to_multiset() == s.to_multiset() && stats == spec_stats(t),
    }
}

/// The rank of a percentile lies inside the series.
pub proof fn lemma_rank_in_range(p: int, n: int)
    requires
        0 <= p <= 100,
        1 <= n,
    ensures
        0 <= rank(p, n) <= n - 1,
{
    assert(0 <= p * (n - 1) <= 100 * (n - 1)) by (nonlinear_arith)
        requires
            0 <= p <= 100,
            1 <= n,
    ;
}

/// The reported figures of a sorted series stand in order: minimum, median,
/// 90th percentile, 99th percentile, maximum.
pub proof fn law_stats_in_order(series: Seq<i64>)
    requires
        sorted(series),
        series.len() > 0,
    ensures
        ({
            let s = spec_stats(series);
            s.min <= s.median <= s.p90 <= s.p99 <= s.max
        }),
{
    let n = series.len() as int;
    lemma_rank_in_range(50, n);
    lemma_rank_in_range(90, n);
    lemma_rank_in_range(99, n);
}

/// The `p`-th percentile of a sorted series by nearest rank. An empty series
/// gives zero.
pub fn percentile(series: &[i64], p: u8) -> (v: i64)
    requires
        p <= 100,
    ensures
        v == spec_percentile(series@, p as int),
{
    let n: usize = series.len();
    if n == 0 {
        return 0;
    }
    proof {
        lemma_rank_in_range(p as int, n as int);
        assert(0 <= p * (n - 1) <= 100 * (n - 1)) by (nonlinear_arith)
            requires
                0 <= p <= 100,
                1 <= n,
        ;
    }
    let scaled: u128 = (p as u128) * ((n - 1) as u128);
    let idx: usize = (scaled / 100) as usize;
    series[idx]
}

/// The figures of a series that is already in ascending order; `None` for an
/// empty one.
pub fn sorted_stats(series: &[i64]) -> (r: Option<Stats>)
    requires
        sorted(series@),
    ensures
        r == if series@.len() == 0 {
            None
        } else {
            Some(spec_stats(series@))
        },
{
    let n: usize = series.len();
    if n == 0 {
        return None;
    }
    Some(
        Stats {
            count: n,
            min: series[0],
            median: percentile(series, 50),
            p90: percentile(series, 90),
            p99: percentile(series, 99),
            max: series[n - 1],
        },
    )
}

/// Calls `sort_unstable` on the vector's slice: afterwards the same values
/// stand in ascending order.
#[verifier::external_body]
fn sort_ascending(data: &mut Vec<i64>)
    ensures
        sorted(final(data)@),
        final(data)@.to_multiset() == old(data)@.to_multiset(),
{
    data.sort_unstable();
}

/// Puts a series in ascending order and reports its figures; `None` for an
/// empty one.
pub fn series_stats(data: &mut Vec<i64>) -> (r: Option<Stats>)
    ensures
        sorted(final(data)@),
        final(data)@.to_multiset() == old(data)@.to_multiset(),
        final(data)@.len() == old(data)@.len(),
        r == if old(data)@.len() == 0 {
            None
        } else {
            Some(spec_stats(final(data)@))
        },
        describes(r, old(data)@),
{
    sort_ascending(data);
    proof {
        old(data)@.to_multiset_ensures();
        data@.to_multiset_ensures();
    }
    sorted_stats(data.as_slice())
}

/// What a row contributes to a series.
pub fn cell(row: &SampleRow, metric: Metric) -> (v: Option<i64>)
    ensures
        v == spec_cell(*row, metric),
{
    match metric {
        Metric::Rtt => Some(row.rtt_mono_us),
        Metric::TickToSend => row.tick_to_send_us,
        Metric::TickToAck => row.tick_to_ack_us,
        Metric::AckDelta => row.ack_delta_prev_us,
    }
}

/// Collects one series from the rows, in their order.
pub fn series(rows: &Vec<SampleRow>, metric: Metric) -> (out: Vec<i64>)
    ensures
        out@ == spec_series(rows@, metric),
{
    let mut out: Vec<i64> = Vec::new();
    let mut i: usize = 0;
    while i < rows.len()
        invariant
            i <= rows@.len(),
            out@ == spec_series(rows@.take(i as int), metric),
        decreases rows@.len() - i,
    {
        proof {
            assert(rows@.take(i + 1).drop_last() =~= rows@.take(i as int));
        }
        match cell(&rows[i], metric) {
            Some(v) => out.push(v),
            None => {},
        }
        i += 1;
    }
    proof {
        assert(rows@.take(i as int) =~= rows@);
    }
    out
}

/// Reports all four series of the rows.
pub fn summarize(rows: &Vec<SampleRow>) -> (s: Summary)
    ensures
        describes(s.rtt, spec_series(rows@, Metric::Rtt)),
        describes(s.tick_to_send, spec_series(rows@, Metric::TickToSend)),
        describes(s.tick_to_ack, spec_series(rows@, Metric::TickToAck)),
        describes(s.ack_delta, spec_series(rows@, Metric::AckDelta)),
{
    let mut rtt = series(rows, Metric::Rtt);
    let mut tick_to_send = series(rows, Metric::TickToSend);
    let mut tick_to_ack = series(rows, Metric::TickToAck);
    let mut ack_delta = series(rows, Metric::AckDelta);
    Summary {
        rtt: series_stats(&mut rtt),
        tick_to_send: series_stats(&mut tick_to_send),
        tick_to_ack: series_stats(&mut tick_to_ack),
        ack_delta: series_stats(&mut ack_delta),
    }
}

} // verus!
