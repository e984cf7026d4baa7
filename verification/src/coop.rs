//! The cooperative budget.
//!
//! A step of a computation may perform a bounded number of units of work.
//! Each unit asks `poll_proceed` for leave. Once the budget is spent, the
//! computation is told to suspend and its wake handle is re-armed, so that
//! the scheduler steps other tasks before it comes back to this one. The
//! budget bounds work that the scheduler can see, not time.

use crate::future::{Context, Poll};
use vstd::prelude::*;

verus! {

/// The work a computation may still do before it has to yield.
#[derive(Debug, Copy, Clone)]
pub struct Budget(pub Option<u8>);

/// The units granted at the start of each top-level step.
pub const INITIAL_BUDGET: u8 = 128;

impl Budget {
    /// `None` for no limit, or the number of units left.
    pub open spec fn view(&self) -> Option<nat> {
        match self.0 {
            Some(n) => Some(n as nat),
            None => None,
        }
    }

    /// What `decrement` leaves of a budget.
    pub open spec fn spec_decrement(self) -> Budget {
        match self.0 {
            Some(n) => if n > 0 {
                Budget(Some((n - 1) as u8))
            } else {
                self
            },
            None => self,
        }
    }

    /// Whether a unit of work can be taken from a budget.
    pub open spec fn has_remaining(self) -> bool {
        self.0 != Some(0u8)
    }

    /// Returns an unconstrained budget. Operations will not be limited.
    pub fn unconstrained() -> (b: Budget)
        ensures
            b.0 is None,
    {
        Budget(None)
    }

    /// Returns the budget granted at the start of a top-level step.
    pub fn initial() -> (b: Budget)
        ensures
            b.0 == Some(INITIAL_BUDGET),
    {
        Budget(Some(INITIAL_BUDGET))
    }

    /// Returns a budget of `units` units.
    pub fn limited(units: u8) -> (b: Budget)
        ensures
            b.0 == Some(units),
    {
        Budget(Some(units))
    }

    /// Returns `true` if the budget does not limit work.
    pub fn is_unconstrained(&self) -> (b: bool)
        ensures
            b == (self@ is None),
    {
        self.0.is_none()
    }

    /// Takes one unit from the budget. Returns `true` if there was one to
    /// take; an unconstrained budget always has one.
    pub fn decrement(&mut self) -> (ok: bool)
        ensures
            ok == old(self).has_remaining(),
            *final(self) == old(self).spec_decrement(),
    {
        match self.0 {
            Some(num) => {
                if num > 0 {
                    self.0 = Some(num - 1);
                    true
                } else {
                    false
                }
            },
            None => true,
        }
    }
}

/// Installs the initial budget for a top-level step and returns the budget
/// that was in place, to be put back by `restore` when the step is over.
pub fn budget(cx: &mut Context) -> (prev: Budget)
    ensures
        prev == old(cx).spec_budget(),
        final(cx).spec_budget().0 == Some(INITIAL_BUDGET),
        final(cx).spec_waker() == old(cx).spec_waker(),
        final(cx).spec_woken() == old(cx).spec_woken(),
{
    cx.set_budget(Budget::initial())
}

/// Puts back the budget that `budget` or `stop` returned.
pub fn restore(cx: &mut Context, prev: Budget)
    ensures
        final(cx).spec_budget() == prev,
        final(cx).spec_waker() == old(cx).spec_waker(),
        final(cx).spec_woken() == old(cx).spec_woken(),
{
    let _ = cx.set_budget(prev);
}

/// Removes the limit on work early. Returns the budget that was left.
pub fn stop(cx: &mut Context) -> (prev: Budget)
    ensures
        prev == old(cx).spec_budget(),
        final(cx).spec_budget().0 is None,
        final(cx).spec_waker() == old(cx).spec_waker(),
        final(cx).spec_woken() == old(cx).spec_woken(),
{
    cx.set_budget(Budget::unconstrained())
}

/// Asks for leave to do one unit of work.
///
/// Returns `Ready` and takes the unit from the budget if one is left.
/// Returns `Pending` if the budget is spent: the budget stays at zero and the
/// context's wake handle is invoked, so that the computation is stepped again
/// after it has yielded.
pub fn poll_proceed(cx: &mut Context) -> (res: Poll<()>)
    ensures
        res is Ready <==> old(cx).spec_budget().has_remaining(),
        final(cx).spec_budget() == old(cx).spec_budget().spec_decrement(),
        final(cx).spec_waker() == old(cx).spec_waker(),
        final(cx).spec_woken() == (old(cx).spec_woken() || res is Pending),
{
    let mut budget = cx.budget();
    if budget.decrement() {
        let _ = cx.set_budget(budget);
        Poll::Ready(())
    } else {
        cx.wake_by_ref();
        Poll::Pending
    }
}

/// A computation that performs a fixed number of units of work, asking
/// `poll_proceed` for leave before each, and then completes with a value.
pub struct UnitWork {
    remaining: u64,
    value: u64,
}

/// How often a computation of `units` units is told to suspend before it
/// completes, when every step starts with a budget of `limit`.
pub open spec fn pending_steps(units: nat, limit: Option<nat>) -> nat {
    match limit {
        None => 0,
        Some(b) => if units == 0 || b == 0 {
            0
        } else {
            ((units - 1) / (b as int)) as nat
        },
    }
}

/// A budget smaller than the work forces at least one suspension.
pub proof fn lemma_small_budget_suspends(units: nat, limit: nat)
    requires
        0 < limit < units,
    ensures
        pending_steps(units, Some(limit)) >= 1,
{
    assert((units - 1) / (limit as int) >= 1) by (nonlinear_arith)
        requires
            0 < limit < units,
    ;
}

proof fn lemma_pending_steps_unfold(units: nat, limit: nat)
    requires
        0 < limit < units,
    ensures
        pending_steps(units, Some(limit)) == 1 + pending_steps((units - limit) as nat, Some(limit)),
{
    assert((units - 1) / (limit as int) == 1 + (units - limit - 1) / (limit as int))
        by (nonlinear_arith)
        requires
            0 < limit < units,
    ;
}

impl UnitWork {
    /// The units of work still to do.
    pub closed spec fn spec_remaining(&self) -> nat {
        self.remaining as nat
    }

    /// The value the computation completes with.
    pub closed spec fn spec_value(&self) -> u64 {
        self.value
    }

    /// A computation of `units` units of work that completes with `value`.
    pub fn new(units: u64, value: u64) -> (work: UnitWork)
        ensures
            work.spec_remaining() == units,
            work.spec_value() == value,
    {
        UnitWork { remaining: units, value }
    }

    /// The units of work still to do.
    pub fn remaining(&self) -> (n: u64)
        ensures
            n == self.spec_remaining(),
    {
        self.remaining
    }

    /// One step: works until the work is done or the budget is spent.
    ///
    /// With enough budget the step completes with the value and takes the
    /// work from the budget. Otherwise it spends the whole budget, reports
    /// `Pending` and has re-armed the wake handle.
    pub fn poll(&mut self, cx: &mut Context) -> (res: Poll<u64>)
        ensures
            final(self).spec_value() == old(self).spec_value(),
            final(cx).spec_waker() == old(cx).spec_waker(),
            match old(cx).spec_budget()@ {
                Some(k) if k < old(self).spec_remaining() => {
                    &&& res is Pending
                    &&& final(self).spec_remaining() == old(self).spec_remaining() - k
                    &&& final(cx).spec_budget()@ == Some(0nat)
                    &&& final(cx).spec_woken()
                },
                Some(k) => {
                    &&& res == Poll::Ready(old(self).spec_value())
                    &&& final(self).spec_remaining() == 0
                    &&& final(cx).spec_budget()@ == Some((k - old(self).spec_remaining()) as nat)
                    &&& final(cx).spec_woken() == old(cx).spec_woken()
                },
                None => {
                    &&& res == Poll::Ready(old(self).spec_value())
                    &&& final(self).spec_remaining() == 0
                    &&& final(cx).spec_budget()@ is None
                    &&& final(cx).spec_woken() == old(cx).spec_woken()
                },
            },
    {
        while self.remaining > 0
            invariant
                self.value == old(self).value,
                self.remaining <= old(self).remaining,
                cx.spec_waker() == old(cx).spec_waker(),
                cx.spec_woken() == old(cx).spec_woken(),
                match old(cx).spec_budget()@ {
                    Some(k) => cx.spec_budget()@ == Some(
                        (k - (old(self).remaining - self.remaining)) as nat,
                    ) && old(self).remaining - self.remaining <= k,
                    None => cx.spec_budget()@ is None,
                },
            decreases self.remaining,
        {
            if poll_proceed(cx).is_pending() {
                return Poll::Pending;
            }
            self.remaining = self.remaining - 1;
        }
        Poll::Ready(self.value)
    }
}

/// Steps `work` to completion, each step under a fresh budget of `limit`.
/// Returns the value it completed with and the number of steps that ended in
/// `Pending`.
///
/// The value does not depend on the budget; the number of suspensions does,
/// and is at least one where the budget is smaller than the work.
pub fn run_with_budget(work: UnitWork, limit: Budget) -> (res: (u64, u64))
    requires
        limit.0 != Some(0u8),
    ensures
        res.0 == work.spec_value(),
        res.1 == pending_steps(work.spec_remaining(), limit@),
        limit@ is Some && limit@->Some_0 < work.spec_remaining() ==> res.1 >= 1,
{
    let mut job = work;
    let mut pendings: u64 = 0;
    proof {
        if limit@ is Some && limit@->Some_0 < work.spec_remaining() {
            lemma_small_budget_suspends(work.spec_remaining(), limit@->Some_0);
        }
    }
    loop
        invariant
            limit.0 != Some(0u8),
            job.spec_value() == work.spec_value(),
            pendings + job.spec_remaining() <= work.spec_remaining() <= u64::MAX,
            pendings + pending_steps(job.spec_remaining(), limit@) == pending_steps(
                work.spec_remaining(),
                limit@,
            ),
            limit@ is Some && limit@->Some_0 < work.spec_remaining() ==> pending_steps(
                work.spec_remaining(),
                limit@,
            ) >= 1,
        decreases job.spec_remaining(),
    {
        let mut cx = Context::from_waker(crate::future::Waker::Root);
        let _ = cx.set_budget(limit);
        proof {
            if limit@ is Some {
                let n = job.spec_remaining();
                let k = limit@->Some_0;
                if k < n {
                    lemma_pending_steps_unfold(n, k);
                } else if n > 0 {
                    assert((n - 1) / (k as int) == 0) by (nonlinear_arith)
                        requires
                            0 < n <= k,
                    ;
                }
            }
        }
        match job.poll(&mut cx) {
            Poll::Ready(v) => {
                return (v, pendings);
            },
            Poll::Pending => {
                pendings = pendings + 1;
            },
        }
    }
}

} // verus!
