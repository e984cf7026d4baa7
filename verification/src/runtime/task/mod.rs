//! Tasks: the lifecycle word, the cell, and the harness that operates on it.

pub mod cell;
pub mod harness;
pub mod state;

use vstd::prelude::*;

verus! {

/// Why a task's output cannot be had.
#[derive(Debug, Clone, Copy, PartialEq, Eq, Structural)]
pub enum JoinError {
    /// The task was cancelled before it completed.
    Cancelled,
    /// The task's computation ended abnormally during a step.
    Panic,
}

/// An owned handle to a task, counted by the task's reference count.
#[derive(Debug, PartialEq, Eq, Structural)]
pub struct Task {
    pub id: usize,
}

/// A task that has been notified: it sits in a run queue, or is about to.
#[derive(Debug, PartialEq, Eq, Structural)]
pub struct Notified(pub Task);

impl Notified {
    /// The identifier of the task.
    pub fn id(&self) -> (id: usize)
        ensures
            id == self.0.id,
    {
        self.0.id
    }
}

/// Creates a task with identifier `id`: the cell behind its harness, and the
/// notification that puts it into a run queue.
pub fn joinable<T>(id: usize) -> (res: (Notified, harness::Harness<T>))
    ensures
        res.0.0.id == id,
        res.1.id() == id,
        res.1.wf(),
        res.1.is_fresh(),
{
    (Notified(Task { id }), harness::Harness::new(id))
}

} // verus!
