//! The handle to a runtime.

use crate::runtime::context;
use crate::runtime::task::harness::Harness;
use crate::runtime::time;
use crate::runtime::Runtime;
use vstd::prelude::*;

verus! {

/// A handle to a runtime, by which its context is entered and tasks are
/// spawned onto it.
#[derive(Debug, Clone, Copy, PartialEq, Eq, Structural)]
pub struct Handle {
    /// Source of the current time
    pub clock: time::Clock,
}

impl Handle {
    /// Enters the context of the runtime: this handle becomes the current
    /// handle of the thread, `current`. Returns the handle that was current
    /// before; `context::restore_current` puts it back when the work in the
    /// context is over.
    pub fn enter(&self, current: &mut Option<Handle>) -> (previous: Option<Handle>)
        ensures
            *final(current) == Some(*self),
            previous == *old(current),
    {
        context::set_current(current, *self)
    }

    /// Spawns a task onto the runtime `runtime`. The task is pushed at the
    /// back of the remote run queue, the park token is made available, and
    /// the task's cell is returned, referenced by the scheduler and by the
    /// join handle.
    pub fn spawn<T>(&self, runtime: &mut Runtime) -> (harness: Harness<T>)
        requires
            old(runtime).scheduler().spec_spawner().spawned() < usize::MAX,
        ensures
            harness.wf(),
            harness.is_fresh(),
            Runtime::spawned(*old(runtime), *final(runtime), harness.id()),
    {
        runtime.spawn()
    }
}

} // verus!
