//! The correlation table: which call waits under which id.
//!
//! Ids come from a counter that starts at 1 and only grows. A call is
//! registered under a fresh id before its request is written; a reply removes
//! the entry under its id and hands the waiter's completion handle back, once.
//! When the connection ends, `close` hands back every handle that is still
//! waiting, so that each of those calls can be failed.

use std::collections::HashMap;
use vstd::prelude::*;

verus! {

broadcast use vstd::std_specs::hash::group_hash_axioms;

/// The id counter and the calls that wait for a reply.
pub struct CorrelationTable<H> {
    next_id: i64,
    waiting: HashMap<i64, H>,
    closed: bool,
}

/// An operation on the table, for stating what a history of operations does.
pub enum TableOp<H> {
    /// A call is issued with this completion handle.
    Register(H),
    /// A reply with this id arrives.
    Resolve(i64),
}

/// The pending map and the counter after one operation on an open table.
pub open spec fn step<H>(pending: Map<i64, H>, counter: int, op: TableOp<H>) -> (Map<i64, H>, int) {
    match op {
        TableOp::Register(h) => (pending.insert(counter as i64, h), counter + 1),
        TableOp::Resolve(id) => (pending.remove(id), counter),
    }
}

/// The pending map and the counter after a history of operations.
pub open spec fn run<H>(pending: Map<i64, H>, counter: int, ops: Seq<TableOp<H>>) -> (Map<i64, H>, int)
    decreases ops.len(),
{
    if ops.len() == 0 {
        (pending, counter)
    } else {
        let before = run(pending, counter, ops.drop_last());
        step(before.0, before.1, ops.last())
    }
}

/// No operation of the history is a reply for `id`.
pub open spec fn untouched<H>(ops: Seq<TableOp<H>>, id: i64) -> bool {
    forall|k: int| 0 <= k < ops.len() ==> #[trigger] ops[k] != TableOp::<H>::Resolve(id)
}

impl<H> CorrelationTable<H> {
    /// The id that the next call will get.
    pub closed spec fn counter(&self) -> i64 {
        self.next_id
    }

    /// The calls that wait for a reply: id to completion handle.
    pub closed spec fn pending(&self) -> Map<i64, H> {
        self.waiting@
    }

    /// Whether the connection has ended.
    pub closed spec fn terminated(&self) -> bool {
        self.closed
    }

    /// The ids given out so far.
    pub open spec fn issued(&self) -> Set<i64> {
        Set::new(|id: i64| 1 <= id < self.counter())
    }

    /// The table's invariant: the counter is positive, and every waiting call
    /// stands under an id that the counter has already passed.
    pub closed spec fn wf(&self) -> bool {
        &&& self.next_id >= 1
        &&& forall|id: i64| #[trigger] self.waiting@.contains_key(id) ==> 1 <= id < self.next_id
    }

    /// Every waiting call stands under an id that was given out.
    pub proof fn law_pending_ids_were_issued(&self)
        requires
            self.wf(),
        ensures
            self.pending().dom().subset_of(self.issued()),
            self.pending().dom().finite(),
    {
    }

    /// An open table with nothing pending, whose first id is 1.
    pub fn new() -> (t: Self)
        ensures
            t.wf(),
            t.counter() == 1,
            t.pending() == Map::<i64, H>::empty(),
            !t.terminated(),
    {
        CorrelationTable { next_id: 1, waiting: HashMap::new(), closed: false }
    }

    /// The id that the next call will get.
    pub fn next_id(&self) -> (id: i64)
        ensures
            id == self.counter(),
    {
        self.next_id
    }

    /// Whether `close` has been called.
    pub fn is_closed(&self) -> (b: bool)
        ensures
            b == self.terminated(),
    {
        self.closed
    }

    /// How many calls wait for a reply.
    pub fn outstanding(&self) -> (n: usize)
        ensures
            n == self.pending().len(),
    {
        self.waiting.len()
    }

    /// Whether a call waits under `id`.
    pub fn is_pending(&self, id: i64) -> (b: bool)
        ensures
            b == self.pending().contains_key(id),
    {
        self.waiting.contains_key(&id)
    }

    /// Issues a call: draws the next id and files `handle` under it. On a
    /// closed table nothing is drawn and the handle comes back, so that the
    /// caller fails at once.
    pub fn register(&mut self, handle: H) -> (r: Result<i64, H>)
        requires
            old(self).wf(),
            old(self).terminated() || old(self).counter() < i64::MAX,
        ensures
            final(self).wf(),
            final(self).terminated() == old(self).terminated(),
            match r {
                Ok(id) => {
                    &&& !old(self).terminated()
                    &&& id == old(self).counter()
                    &&& final(self).counter() == id + 1
                    &&& final(self).pending() == old(self).pending().insert(id, handle)
                    &&& (final(self).pending(), final(self).counter() as int) == step(
                        old(self).pending(),
                        old(self).counter() as int,
                        TableOp::Register(handle),
                    )
                    &&& !old(self).pending().contains_key(id)
                    &&& !old(self).issued().contains(id)
                    &&& forall|earlier: i64| old(self).issued().contains(earlier) ==> earlier < id
                    &&& final(self).issued() == old(self).issued().insert(id)
                },
                Err(h) => {
                    &&& old(self).terminated()
                    &&& h == handle
                    &&& final(self).counter() == old(self).counter()
                    &&& final(self).pending() == old(self).pending()
                },
            },
    {
        if self.closed {
            return Err(handle);
        }
        let id: i64 = self.next_id;
        self.waiting.insert(id, handle);
        self.next_id = id + 1;
        proof {
            assert(final(self).issued() =~= old(self).issued().insert(id));
        }
        Ok(id)
    }

    /// Routes a reply: the handle filed under `id` leaves the table and is
    /// returned. An id under which nothing waits changes nothing.
    pub fn resolve(&mut self, id: i64) -> (r: Option<H>)
        requires
            old(self).wf(),
        ensures
            final(self).wf(),
            final(self).counter() == old(self).counter(),
            final(self).terminated() == old(self).terminated(),
            r == if old(self).pending().contains_key(id) {
                Some(old(self).pending()[id])
            } else {
                None
            },
            final(self).pending() == old(self).pending().remove(id),
            (final(self).pending(), final(self).counter() as int) == step(
                old(self).pending(),
                old(self).counter() as int,
                TableOp::Resolve(id),
            ),
    {
        self.waiting.remove(&id)
    }

    /// Ends the table's life: every call that still waits is handed back,
    /// and the table holds none and accepts none from then on.
    pub fn close(&mut self) -> (r: HashMap<i64, H>)
        requires
            old(self).wf(),
        ensures
            final(self).wf(),
            final(self).terminated(),
            final(self).counter() == old(self).counter(),
            final(self).pending() == Map::<i64, H>::empty(),
            r@ == old(self).pending(),
    {
        let mut out: HashMap<i64, H> = HashMap::new();
        std::mem::swap(&mut self.waiting, &mut out);
        self.closed = true;
        out
    }
}

/// A handle filed under an id stays the one that a reply for that id
/// receives: no later registration and no reply for another id takes it away
/// or puts another in its place.
pub proof fn law_reply_reaches_its_caller<H>(
    pending: Map<i64, H>,
    counter: int,
    handle: H,
    ops: Seq<TableOp<H>>,
)
    requires
        1 <= counter,
        counter + 1 + ops.len() <= i64::MAX,
        untouched(ops, counter as i64),
    ensures
        ({
            let start = step(pending, counter, TableOp::Register(handle));
            let end = run(start.0, start.1, ops);
            &&& end.0.contains_key(counter as i64)
            &&& end.0[counter as i64] == handle
            &&& counter < end.1 <= counter + 1 + ops.len()
        }),
    decreases ops.len(),
{
    if ops.len() > 0 {
        let earlier = ops.drop_last();
        assert(forall|k: int| 0 <= k < earlier.len() ==> earlier[k] == ops[k]);
        law_reply_reaches_its_caller(pending, counter, handle, earlier);
        assert(ops.last() == ops[ops.len() - 1]);
    }
}

/// The id that operation `k` of a history draws if it is a registration:
/// the counter as it stands after the operations before it. For `k` equal to
/// the length of the history it is the id that the next call would draw.
pub open spec fn id_drawn<H>(pending: Map<i64, H>, counter: int, ops: Seq<TableOp<H>>, k: int) -> int {
    run(pending, counter, ops.take(k)).1
}

/// Of two calls, the later draws the greater id, whatever happened in
/// between and whatever became of the earlier call: no operation gives an
/// id back.
pub proof fn law_ids_strictly_increase<H>(
    pending: Map<i64, H>,
    counter: int,
    ops: Seq<TableOp<H>>,
    a: int,
    b: int,
)
    requires
        1 <= counter,
        counter + ops.len() <= i64::MAX,
        0 <= a < b <= ops.len(),
        ops[a] is Register,
    ensures
        1 <= id_drawn(pending, counter, ops, a) < id_drawn(pending, counter, ops, b) <= i64::MAX,
    decreases b - a,
{
    law_counter_never_falls(pending, counter, ops.take(a));
    law_counter_never_falls(pending, counter, ops.take(b));
    if b == a + 1 {
        assert(ops.take(b).drop_last() =~= ops.take(a));
        assert(ops.take(b).last() == ops[a]);
    } else {
        law_ids_strictly_increase(pending, counter, ops, a, b - 1);
        assert(ops.take(b).drop_last() =~= ops.take(b - 1));
    }
}

/// Ids only grow: after any history of operations the counter is at least
/// what it was, and it has moved by no more than the number of operations.
pub proof fn law_counter_never_falls<H>(pending: Map<i64, H>, counter: int, ops: Seq<TableOp<H>>)
    ensures
        counter <= run(pending, counter, ops).1 <= counter + ops.len(),
    decreases ops.len(),
{
    if ops.len() > 0 {
        law_counter_never_falls(pending, counter, ops.drop_last());
    }
}

} // verus!
