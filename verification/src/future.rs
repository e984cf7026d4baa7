//! The vocabulary of suspension: the outcome of one step of a computation,
//! the handle by which a suspended party asks to be stepped again, and the
//! context that a step runs in.

use crate::coop::Budget;
use vstd::prelude::*;

verus! {

/// The outcome of one step of a suspendable computation.
///
/// `Pending` is the normal signal of suspension. It is neither success nor
/// failure.
#[derive(Debug, PartialEq, Eq)]
pub enum Poll<T> {
    /// The computation has finished with this value.
    Ready(T),
    /// The computation cannot make progress yet.
    Pending,
}

impl<T> Poll<T> {
    /// Returns `true` if the step finished the computation.
    pub fn is_ready(&self) -> (b: bool)
        ensures
            b == (self is Ready),
    {
        match self {
            Poll::Ready(_) => true,
            Poll::Pending => false,
        }
    }

    /// Returns `true` if the step left the computation suspended.
    pub fn is_pending(&self) -> (b: bool)
        ensures
            b == (self is Pending),
    {
        !self.is_ready()
    }
}

/// A wake handle: names the party that wants to be stepped again.
///
/// Invoking a handle is left to whoever drives the computations. Operations
/// that owe a wake-up hand the handle back to their caller.
#[derive(Clone, Copy, Debug, PartialEq, Eq, Structural)]
pub enum Waker {
    /// Wakes the thread that drives the root computation.
    Root,
    /// Wakes the task with this identifier.
    Task(usize),
}

impl Waker {
    /// Returns `true` if invoking `other` wakes the same party as invoking
    /// `self`.
    pub fn will_wake(&self, other: &Waker) -> (b: bool)
        ensures
            b == (*self == *other),
    {
        match (*self, *other) {
            (Waker::Root, Waker::Root) => true,
            (Waker::Task(a), Waker::Task(b)) => a == b,
            _ => false,
        }
    }
}

/// What one step of a computation runs in: the handle that wakes the
/// computation, the work it may still do, and whether it has asked to be
/// stepped again.
pub struct Context {
    waker: Waker,
    budget: Budget,
    woken: bool,
}

impl Context {
    /// The handle that wakes the computation stepped in this context.
    pub closed spec fn spec_waker(&self) -> Waker {
        self.waker
    }

    /// The work the computation may still do in this step.
    pub closed spec fn spec_budget(&self) -> Budget {
        self.budget
    }

    /// Whether the computation has invoked its own handle during the step.
    pub closed spec fn spec_woken(&self) -> bool {
        self.woken
    }

    /// A context for `waker`, with no limit on work and no wake-up recorded.
    pub fn from_waker(waker: Waker) -> (cx: Context)
        ensures
            cx.spec_waker() == waker,
            cx.spec_budget()@ is None,
            !cx.spec_woken(),
    {
        Context { waker, budget: Budget::unconstrained(), woken: false }
    }

    /// The handle that wakes the computation stepped in this context.
    pub fn waker(&self) -> (w: Waker)
        ensures
            w == self.spec_waker(),
    {
        self.waker
    }

    /// The work the computation may still do in this step.
    pub fn budget(&self) -> (b: Budget)
        ensures
            b == self.spec_budget(),
    {
        self.budget
    }

    /// Replaces the budget and returns the one that was in place.
    pub fn set_budget(&mut self, budget: Budget) -> (prev: Budget)
        ensures
            prev == old(self).spec_budget(),
            final(self).spec_budget() == budget,
            final(self).spec_waker() == old(self).spec_waker(),
            final(self).spec_woken() == old(self).spec_woken(),
    {
        let prev = self.budget;
        self.budget = budget;
        prev
    }

    /// Invokes the context's own handle: the computation asks to be stepped
    /// again.
    pub fn wake_by_ref(&mut self)
        ensures
            final(self).spec_woken(),
            final(self).spec_waker() == old(self).spec_waker(),
            final(self).spec_budget() == old(self).spec_budget(),
    {
        self.woken = true;
    }

    /// Returns whether the computation asked to be stepped again, and clears
    /// the record.
    pub fn take_woken(&mut self) -> (w: bool)
        ensures
            w == old(self).spec_woken(),
            !final(self).spec_woken(),
            final(self).spec_waker() == old(self).spec_waker(),
            final(self).spec_budget() == old(self).spec_budget(),
    {
        let w = self.woken;
        self.woken = false;
        w
    }
}

} // verus!
