//! The order of calls in a measurement run.
//!
//! Each iteration opens an order. Where the reply names the order, the
//! iteration goes on to edit it and then to cancel it; where it does not,
//! the iteration ends there. Replies that report a failure do not stop the
//! run: what matters is only whether the opening reply named an order.

use crate::config::OrderSide;
use vstd::prelude::*;

verus! {

/// The call that is due next, or that none is.
#[derive(Clone, Copy, Debug, PartialEq, Eq)]
pub enum Phase {
    Open,
    Edit,
    Cancel,
    Finished,
}

/// How far a run has come.
#[derive(Clone, Copy, Debug, PartialEq, Eq)]
pub struct Progress {
    /// The iteration in which the next call falls, counted from zero.
    pub iteration: usize,
    pub phase: Phase,
}

/// A run that is not finished is inside one of its iterations.
pub open spec fn in_run(p: Progress, iterations: usize) -> bool {
    p.phase != Phase::Finished ==> p.iteration < iterations
}

/// Where the run stands once the current iteration is over.
pub open spec fn spec_next_iteration(p: Progress, iterations: usize) -> Progress {
    if p.iteration + 1 < iterations {
        Progress { iteration: (p.iteration + 1) as usize, phase: Phase::Open }
    } else {
        Progress { iteration: p.iteration, phase: Phase::Finished }
    }
}

/// Where a run of so many iterations begins.
pub open spec fn spec_start(iterations: usize) -> Progress {
    if iterations == 0 {
        Progress { iteration: 0, phase: Phase::Finished }
    } else {
        Progress { iteration: 0, phase: Phase::Open }
    }
}

/// Where the run stands after the reply to the call that was due.
/// `order_named` says whether that reply named an order; it matters only for
/// the opening call.
pub open spec fn spec_after_reply(p: Progress, iterations: usize, order_named: bool) -> Progress {
    match p.phase {
        Phase::Open => if order_named {
            Progress { iteration: p.iteration, phase: Phase::Edit }
        } else {
            spec_next_iteration(p, iterations)
        },
        Phase::Edit => Progress { iteration: p.iteration, phase: Phase::Cancel },
        Phase::Cancel => spec_next_iteration(p, iterations),
        Phase::Finished => p,
    }
}

/// The most calls that a run can still make.
pub open spec fn calls_left(p: Progress, iterations: usize) -> int {
    match p.phase {
        Phase::Open => 3 * (iterations - p.iteration),
        Phase::Edit => 3 * (iterations - p.iteration) - 1,
        Phase::Cancel => 3 * (iterations - p.iteration) - 2,
        Phase::Finished => 0,
    }
}

/// The beginning of a run of `iterations` iterations.
pub fn start(iterations: usize) -> (p: Progress)
    ensures
        p == spec_start(iterations),
        in_run(p, iterations),
{
    if iterations == 0 {
        Progress { iteration: 0, phase: Phase::Finished }
    } else {
        Progress { iteration: 0, phase: Phase::Open }
    }
}

/// Moves the run on after the reply to the call that was due.
pub fn after_reply(p: Progress, iterations: usize, order_named: bool) -> (next: Progress)
    requires
        in_run(p, iterations),
    ensures
        next == spec_after_reply(p, iterations, order_named),
        in_run(next, iterations),
{
    match p.phase {
        Phase::Open => {
            if order_named {
                Progress { iteration: p.iteration, phase: Phase::Edit }
            } else {
                next_iteration(p, iterations)
            }
        },
        Phase::Edit => Progress { iteration: p.iteration, phase: Phase::Cancel },
        Phase::Cancel => next_iteration(p, iterations),
        Phase::Finished => p,
    }
}

fn next_iteration(p: Progress, iterations: usize) -> (next: Progress)
    requires
        p.iteration < iterations,
    ensures
        next == spec_next_iteration(p, iterations),
{
    if p.iteration + 1 < iterations {
        Progress { iteration: p.iteration + 1, phase: Phase::Open }
    } else {
        Progress { iteration: p.iteration, phase: Phase::Finished }
    }
}

/// The label and the method of the call that is due; `None` when the run is
/// finished.
pub fn call_due(phase: Phase, side: OrderSide) -> (r: Option<(&'static str, &'static str)>)
    ensures
        match r {
            Some((label, method)) => match phase {
                Phase::Open => label@ == (match side {
                    OrderSide::Buy => "buy"@,
                    OrderSide::Sell => "sell"@,
                }) && method@ == (match side {
                    OrderSide::Buy => "private/buy"@,
                    OrderSide::Sell => "private/sell"@,
                }),
                Phase::Edit => label@ == "edit"@ && method@ == "private/edit"@,
                Phase::Cancel => label@ == "cancel"@ && method@ == "private/cancel"@,
                Phase::Finished => false,
            },
            None => phase == Phase::Finished,
        },
{
    match phase {
        Phase::Open => Some((side.op_type(), side.rpc_method())),
        Phase::Edit => Some(("edit", "private/edit")),
        Phase::Cancel => Some(("cancel", "private/cancel")),
        Phase::Finished => None,
    }
}

/// Every reply brings the run nearer to its end: a run of `n` iterations
/// makes at most `3 * n` calls.
pub proof fn law_run_ends(p: Progress, iterations: usize, order_named: bool)
    requires
        in_run(p, iterations),
        p.phase != Phase::Finished,
    ensures
        0 <= calls_left(spec_after_reply(p, iterations, order_named), iterations) < calls_left(p, iterations),
        calls_left(spec_start(iterations), iterations) == 3 * iterations,
{
}

} // verus!
