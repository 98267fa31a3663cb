//! The latest market-data tick: one slot, last write wins.

use crate::frame::MarketDataEvent;
use vstd::prelude::*;
use vstd::string::StrSliceExecFns;
use vstd::string::StringExecFns;

verus! {

/// The arrival time of the most recent tick on a book channel, if any has
/// been seen. No history is kept.
pub struct LatestTick {
    slot: Option<i64>,
}

/// A channel whose events count as ticks: its name begins with `book.`.
pub open spec fn is_book_channel(channel: Seq<char>) -> bool {
    "book."@.is_prefix_of(channel)
}

/// Whether `prefix` stands at the beginning of `s`.
fn starts_with(s: &str, prefix: &str) -> (b: bool)
    ensures
        b == prefix@.is_prefix_of(s@),
{
    let m: usize = prefix.unicode_len();
    let n: usize = s.unicode_len();
    if m > n {
        return false;
    }
    let mut i: usize = 0;
    while i < m
        invariant
            i <= m <= n,
            m == prefix@.len(),
            n == s@.len(),
            forall|k: int| 0 <= k < i ==> prefix@[k] == s@[k],
        decreases m - i,
    {
        if prefix.get_char(i) != s.get_char(i) {
            assert(prefix@[i as int] != s@.subrange(0, m as int)[i as int]);
            return false;
        }
        i += 1;
    }
    assert(prefix@ =~= s@.subrange(0, m as int));
    true
}

impl View for LatestTick {
    type V = Option<i64>;

    closed spec fn view(&self) -> Option<i64> {
        self.slot
    }
}

impl LatestTick {
    /// A cache that has seen no tick.
    pub fn new() -> (t: Self)
        ensures
            t@ is None,
    {
        LatestTick { slot: None }
    }

    /// Takes note of an event: one on a book channel overwrites the slot with
    /// its arrival time, any other leaves the slot as it is. Returns whether
    /// the event was a tick.
    pub fn observe(&mut self, event: &MarketDataEvent) -> (taken: bool)
        ensures
            taken == is_book_channel(event.channel@),
            final(self)@ == if taken {
                Some(event.recv_ts_mono)
            } else {
                old(self)@
            },
    {
        if starts_with(event.channel.as_str(), "book.") {
            self.slot = Some(event.recv_ts_mono);
            true
        } else {
            false
        }
    }

    /// The arrival time of the latest tick, in nanoseconds since the process
    /// started.
    pub fn get(&self) -> (t: Option<i64>)
        ensures
            t == self@,
    {
        self.slot
    }
}

/// The name of the raw order-book channel of an instrument.
pub open spec fn spec_book_channel(instrument: Seq<char>) -> Seq<char> {
    "book."@ + instrument + ".raw"@
}

/// The name of the raw order-book channel of an instrument:
/// `book.<instrument>.raw`.
pub fn book_channel(instrument: &str) -> (name: String)
    ensures
        name@ == spec_book_channel(instrument@),
        is_book_channel(name@),
{
    let name = String::from_str("book.").concat(instrument).concat(".raw");
    proof {
        assert(name@.subrange(0, "book."@.len() as int) =~= "book."@);
    }
    name
}


} // verus!
