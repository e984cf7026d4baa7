//! The runtime: the scheduler, the tasks it runs, and the handles to it.

pub mod basic_scheduler;
pub mod blocking;
pub mod builder;
pub mod context;
pub mod enter;
pub mod handle;
pub mod io;
pub mod task;
pub mod time;

use crate::future::Poll;
use crate::park::ParkState;
use crate::runtime::basic_scheduler::{
    enter as enter_scheduler, leave as leave_scheduler, BasicScheduler, Context, Progress,
};
use crate::runtime::blocking::BlockingPool;
use crate::runtime::builder::Builder;
use crate::runtime::enter::{enter as enter_thread, Enter, EnterContext};
use crate::runtime::handle::Handle;
use crate::runtime::io::BuildError;
use crate::runtime::task::harness::Harness;
use crate::runtime::task::{Notified, Task};
use vstd::prelude::*;

verus! {

/// What is done next with a computation that is driven on its own.
#[derive(Debug, PartialEq, Eq)]
pub enum RunStep<T> {
    /// The computation is ready: this is its output.
    Done(T),
    /// The computation is pending and its wake handle has been invoked since
    /// the poll began: poll it again.
    PollAgain,
    /// The computation is pending and nothing has woken it: block the
    /// thread until its wake handle is invoked, then poll it again.
    Park,
}

/// Accounts for one poll of a computation that is driven on its own, with
/// nothing else to schedule. `woken` tells whether the computation's wake
/// handle has been invoked since the poll began.
///
/// A ready computation is done. A pending one is polled again only after a
/// wake-up: at once if the wake-up has come already, and after the thread
/// has parked if not.
pub fn run<T>(polled: Poll<T>, woken: bool) -> (next: RunStep<T>)
    ensures
        next == (match polled {
            Poll::Ready(v) => RunStep::Done(v),
            Poll::Pending => if woken {
                RunStep::PollAgain
            } else {
                RunStep::Park
            },
        }),
{
    match polled {
        Poll::Ready(v) => RunStep::Done(v),
        Poll::Pending => if woken {
            RunStep::PollAgain
        } else {
            RunStep::Park
        },
    }
}

/// The runtime: a scheduler, the handle to it, and the pool for blocking
/// calls.
pub struct Runtime {
    /// Task executor
    pub kind: Kind,
    /// Handle to runtime, also contains driver handles
    pub handle: Handle,
    /// Blocking pool handle, used to signal shutdown
    pub blocking_pool: BlockingPool,
}

/// The runtime "kind" is the task execution model: here, on the current
/// thread.
pub enum Kind {
    /// Execute all tasks on the current thread.
    Basic(BasicScheduler),
}

impl Runtime {
    /// The scheduler of the runtime.
    pub open spec fn scheduler(&self) -> BasicScheduler {
        match self.kind {
            Kind::Basic(exec) => exec,
        }
    }

    /// The state of a runtime that has just been built.
    pub open spec fn is_new(&self) -> bool {
        &&& self.scheduler().has_tasks()
        &&& self.scheduler().held_tasks().local() == Seq::<Notified>::empty()
        &&& self.scheduler().held_tasks().owned() == Seq::<Task>::empty()
        &&& self.scheduler().remote() == Seq::<Notified>::empty()
        &&& self.scheduler().spec_spawner().spawned() == 0
        &&& self.scheduler().spec_tick() == 0
        &&& self.scheduler().spec_progress() == Progress::Root
        &&& self.scheduler().spec_park().state() == ParkState::Empty
        &&& !self.blocking_pool.is_shut_down()
    }

    /// What spawning the task `id` changes: the task is pushed at the back
    /// of the remote run queue, the next task gets the next identifier, the
    /// park token is available, and everything else stays.
    pub open spec fn spawned(before: Runtime, after: Runtime, id: usize) -> bool {
        &&& id == before.scheduler().spec_spawner().spawned()
        &&& after.scheduler().spec_spawner().spawned() == id + 1
        &&& after.scheduler().remote() == before.scheduler().remote().push(Notified(Task { id }))
        &&& after.scheduler().has_tasks() == before.scheduler().has_tasks()
        &&& after.scheduler().has_tasks() ==> after.scheduler().held_tasks()
            == before.scheduler().held_tasks()
        &&& after.scheduler().spec_tick() == before.scheduler().spec_tick()
        &&& after.scheduler().spec_progress() == before.scheduler().spec_progress()
        &&& after.scheduler().spec_park().state() == ParkState::Notified
        &&& after.handle == before.handle
        &&& after.blocking_pool == before.blocking_pool
    }

    /// Creates a runtime with all drivers enabled.
    pub fn new() -> (res: Result<Runtime, BuildError>)
        ensures
            res is Ok,
            res->Ok_0.is_new(),
    {
        let mut builder = Builder::new();
        builder.enable_all();
        builder.build()
    }

    /// Spawns a task onto the runtime. The task is pushed at the back of the
    /// remote run queue, the park token is made available, and the task's
    /// cell is returned, referenced by the scheduler and by the join handle.
    pub fn spawn<T>(&mut self) -> (harness: Harness<T>)
        requires
            old(self).scheduler().spec_spawner().spawned() < usize::MAX,
        ensures
            harness.wf(),
            harness.is_fresh(),
            Self::spawned(*old(self), *final(self), harness.id()),
    {
        match &mut self.kind {
            Kind::Basic(exec) => exec.spawn(),
        }
    }

    /// Accounts for a poll of the root computation with outcome `root`: its
    /// output is handed through if it is ready, and a batch of tasks begins
    /// if it is not. The root computation is polled only between `start`
    /// and `finish`, while the scheduler is entered.
    pub fn block_on<T>(&mut self, root: Poll<T>) -> (res: Poll<T>)
        requires
            !old(self).scheduler().has_tasks(),
            old(self).scheduler().spec_progress() == Progress::Root,
        ensures
            res == root,
            final(self).scheduler().spec_progress() == (if root is Ready {
                Progress::Root
            } else {
                Progress::Tasks(0)
            }),
            final(self).scheduler().spec_tick() == old(self).scheduler().spec_tick(),
            final(self).scheduler().spec_spawner() == old(self).scheduler().spec_spawner(),
            final(self).scheduler().spec_park() == old(self).scheduler().spec_park(),
            final(self).scheduler().has_tasks() == old(self).scheduler().has_tasks(),
            final(self).scheduler().has_tasks() ==> final(self).scheduler().held_tasks() == old(self).scheduler().held_tasks(),
            final(self).handle == old(self).handle,
            final(self).blocking_pool == old(self).blocking_pool,
    {
        match &mut self.kind {
            Kind::Basic(exec) => exec.block_on(root),
        }
    }

    /// Enters the context of the runtime: the handle of this runtime
    /// becomes the current handle of the thread, `current`. Returns the
    /// handle that was current before; `context::restore_current` puts it
    /// back when the work in the context is over.
    pub fn enter(&self, current: &mut Option<Handle>) -> (previous: Option<Handle>)
        ensures
            *final(current) == Some(self.handle),
            previous == *old(current),
    {
        self.handle.enter(current)
    }

    /// Starts driving the runtime on the current thread: marks the thread
    /// as being inside an executor and enters the scheduler.
    ///
    /// A runtime cannot be started from within a runtime, nor while its
    /// scheduler is entered already: `None` is returned then, exactly then,
    /// and nothing changes. Otherwise the mark of the thread and the tasks
    /// of the scheduler are returned; `finish` takes them back.
    pub fn start(&mut self, entered: &mut EnterContext) -> (res: Option<(Enter, Context)>)
        ensures
            res is None <==> *old(entered) is Entered || !old(self).scheduler().has_tasks(),
            res is None ==> *final(entered) == *old(entered) && *final(self) == *old(self),
            res is Some ==> {
                &&& *final(entered) == (EnterContext::Entered { allow_blocking: false })
                &&& !final(self).scheduler().has_tasks()
                &&& res->Some_0.1.spec_tasks() == old(self).scheduler().held_tasks()
                &&& final(self).scheduler().spec_spawner() == old(self).scheduler().spec_spawner()
                &&& final(self).scheduler().spec_tick() == old(self).scheduler().spec_tick()
                &&& final(self).scheduler().spec_progress() == old(self).scheduler().spec_progress()
                &&& final(self).scheduler().spec_park() == old(self).scheduler().spec_park()
                &&& final(self).handle == old(self).handle
                &&& final(self).blocking_pool == old(self).blocking_pool
            },
    {
        if entered.is_entered() {
            return None;
        }
        match &mut self.kind {
            Kind::Basic(exec) => {
                if !exec.can_enter() {
                    return None;
                }
                let guard = enter_thread(entered, false);
                let context = enter_scheduler(exec);
                Some((guard, context))
            },
        }
    }

    /// Stops driving the runtime on the current thread: the tasks of
    /// `context` go back into the scheduler and the thread is no longer
    /// marked as being inside an executor.
    pub fn finish(&mut self, entered: &mut EnterContext, guard: Enter, context: Context)
        ensures
            *final(entered) == EnterContext::NotEntered,
            final(self).scheduler().has_tasks(),
            final(self).scheduler().held_tasks() == context.spec_tasks(),
            final(self).scheduler().spec_spawner() == old(self).scheduler().spec_spawner(),
            final(self).scheduler().spec_tick() == old(self).scheduler().spec_tick(),
            final(self).scheduler().spec_progress() == old(self).scheduler().spec_progress(),
            final(self).scheduler().spec_park() == old(self).scheduler().spec_park(),
            final(self).handle == old(self).handle,
            final(self).blocking_pool == old(self).blocking_pool,
    {
        match &mut self.kind {
            Kind::Basic(exec) => leave_scheduler(exec, context),
        }
        guard.exit(entered);
    }

    /// Returns a handle to the runtime.
    pub fn handle(&self) -> (h: &Handle)
        ensures
            *h == self.handle,
    {
        &self.handle
    }

    /// Shuts the runtime down, waiting for at most `millis` milliseconds for
    /// the blocking calls to finish. Returns the pool, shut down.
    pub fn shutdown_timeout(self, millis: u64) -> (pool: BlockingPool)
        ensures
            pool.is_shut_down(),
    {
        let Runtime { mut blocking_pool, .. } = self;
        blocking_pool.shutdown(Some(millis));
        blocking_pool
    }
}

} // verus!
