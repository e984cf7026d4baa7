//! The scheduler that executes tasks on the current thread.
//!
//! The scheduler decides; it does not run anything itself. The embedding
//! program asks `next_step` what to do, does it (polls the root computation,
//! runs a task, blocks the thread), and reports the outcome of a poll of the
//! root computation to `block_on`.

use crate::future::Waker;
use crate::park::{ParkState, ParkThread};
use crate::runtime::task::harness::Harness;
use crate::runtime::task::{joinable, Notified, Task};
use std::collections::VecDeque;
use vstd::prelude::*;

verus! {

/// Initial queue capacity.
pub const INITIAL_CAPACITY: usize = 64;

/// Max number of tasks to run between two polls of the root computation.
///
/// The value is not a multiple of `REMOTE_FIRST_INTERVAL`, so that the ticks
/// at which the remote queue goes first do not fall on the same place of
/// every batch.
pub const MAX_TASKS_PER_TICK: usize = 61;

/// How often to check the remote queue first.
pub const REMOTE_FIRST_INTERVAL: u8 = 31;

/// What the embedding program has to do next.
#[derive(Debug, PartialEq, Eq)]
pub enum Step {
    /// Poll the root computation under a fresh budget, and report the
    /// outcome to `block_on`.
    PollRoot,
    /// Run the task under a fresh budget.
    Run(Notified),
    /// Block the thread until it is unparked.
    Park,
    /// Yield to the parker with a zero timeout, which lets the drivers
    /// behind it make progress.
    Yield,
}

/// Where the scheduler stands between two polls of the root computation.
#[derive(Debug, Clone, Copy, PartialEq, Eq, Structural)]
pub enum Progress {
    /// The root computation is to be polled next.
    Root,
    /// The root computation is pending and this many tasks have been run
    /// since it was polled.
    Tasks(usize),
}

/// The tasks of a scheduler.
pub struct Tasks {
    /// All tasks bound to this scheduler that have not been released.
    owned: Vec<Task>,
    /// Local run queue. Tasks notified from the scheduler's thread are
    /// pushed into this queue.
    queue: VecDeque<Notified>,
}

/// Scheduler state that other threads reach.
pub struct Shared {
    /// Remote run queue. Tasks spawned or notified from outside the
    /// scheduler are pushed into this queue.
    queue: VecDeque<Notified>,
}

/// Spawns tasks onto the scheduler.
pub struct Spawner {
    shared: Shared,
    /// The identifier of the next task.
    next_id: usize,
}

/// What the scheduler works on while it is entered: its tasks, taken out of
/// the scheduler for the time.
pub struct Context {
    tasks: Tasks,
}

/// Executes tasks on the current thread.
pub struct BasicScheduler {
    /// The tasks. They are moved into a `Context` while the scheduler is
    /// entered.
    tasks: Option<Tasks>,
    /// Task spawner
    spawner: Spawner,
    /// Current tick
    tick: u8,
    /// Thread park handle
    park: ParkThread,
    /// Where the scheduler stands between two polls of the root computation.
    progress: Progress,
}

/// The size of a batch is no multiple of the interval at which the remote
/// queue goes first, so that the remote queue's turn does not fall on the
/// same place of every batch.
pub proof fn lemma_batch_and_interval_do_not_resonate()
    ensures
        (MAX_TASKS_PER_TICK as int) % (REMOTE_FIRST_INTERVAL as int) != 0,
{
    assert(61int % 31int == 30) by (nonlinear_arith);
}

/// An upper bound on the number of steps after which the root computation is
/// due again.
pub open spec fn steps_until_root(progress: Progress) -> nat {
    match progress {
        Progress::Root => 0,
        Progress::Tasks(n) => if n >= MAX_TASKS_PER_TICK {
            1
        } else {
            (MAX_TASKS_PER_TICK - n + 1) as nat
        },
    }
}

/// However many tasks are queued, the root computation is polled again
/// after at most `MAX_TASKS_PER_TICK` tasks and one yield.
pub proof fn lemma_root_is_due_within_a_batch(progress: Progress)
    ensures
        steps_until_root(progress) <= MAX_TASKS_PER_TICK + 1,
        steps_until_root(progress) == 0 <==> progress == Progress::Root,
{
}

/// Whether the remote queue goes first at this tick.
pub open spec fn remote_first(tick: u8) -> bool {
    tick % REMOTE_FIRST_INTERVAL == 0
}

/// Whether the task picked at this tick comes from the remote queue.
pub open spec fn picks_remote(tick: u8, local: Seq<Notified>, remote: Seq<Notified>) -> bool {
    remote.len() > 0 && (remote_first(tick) || local.len() == 0)
}

/// The task picked at this tick: the first of the queue that goes first, or
/// else the first of the other queue, or none if both are empty.
pub open spec fn spec_pick(tick: u8, local: Seq<Notified>, remote: Seq<Notified>) -> Option<
    Notified,
> {
    if picks_remote(tick, local, remote) {
        Some(remote[0])
    } else if local.len() > 0 {
        Some(local[0])
    } else {
        None
    }
}

impl Tasks {
    /// The local run queue, first task first.
    pub closed spec fn local(&self) -> Seq<Notified> {
        self.queue@
    }

    /// The tasks bound to the scheduler, last bound first.
    pub closed spec fn owned(&self) -> Seq<Task> {
        self.owned@
    }
}

impl Context {
    /// The tasks that the context holds.
    pub closed spec fn spec_tasks(&self) -> Tasks {
        self.tasks
    }

    /// The local run queue, first task first.
    pub open spec fn local(&self) -> Seq<Notified> {
        self.spec_tasks().local()
    }

    /// The tasks bound to the scheduler, last bound first.
    pub open spec fn owned(&self) -> Seq<Task> {
        self.spec_tasks().owned()
    }

    /// Binds a task to the scheduler as it is first executed: registers it
    /// at the front of the owned tasks.
    pub fn bind(&mut self, task: Task)
        ensures
            final(self).owned() == seq![task] + old(self).owned(),
            final(self).local() == old(self).local(),
    {
        self.tasks.owned.insert(0, task);
        proof {
            assert(self.tasks.owned@ =~= seq![task] + old(self).tasks.owned@);
        }
    }

    /// The first place among the owned tasks that holds the task `id`, or
    /// the number of owned tasks if none does.
    pub open spec fn position(owned: Seq<Task>, id: usize) -> int
        decreases owned.len(),
    {
        if owned.len() == 0 {
            0
        } else if owned[0].id == id {
            0
        } else {
            1 + Self::position(owned.drop_first(), id)
        }
    }

    /// The task has completed: takes it from the owned tasks and hands it
    /// back, for the caller to drop the scheduler's reference. Returns
    /// `None` if the task is not bound to this scheduler.
    pub fn release(&mut self, id: usize) -> (task: Option<Task>)
        ensures
            final(self).local() == old(self).local(),
            0 <= Self::position(old(self).owned(), id) <= old(self).owned().len(),
            Self::position(old(self).owned(), id) == old(self).owned().len() ==> task is None
                && final(self).owned() == old(self).owned(),
            Self::position(old(self).owned(), id) < old(self).owned().len() ==> task == Some(
                Task { id },
            ) && final(self).owned() == old(self).owned().remove(
                Self::position(old(self).owned(), id),
            ),
    {
        let mut i: usize = 0;
        proof {
            assert(self.tasks.owned@.skip(0) =~= self.tasks.owned@);
        }
        while i < self.tasks.owned.len()
            invariant
                *self == *old(self),
                0 <= i <= self.tasks.owned@.len(),
                Self::position(self.tasks.owned@, id) == i + Self::position(
                    self.tasks.owned@.skip(i as int),
                    id,
                ),
            decreases self.tasks.owned@.len() - i,
        {
            proof {
                let rest = self.tasks.owned@.skip(i as int);
                assert(rest[0] == self.tasks.owned@[i as int]);
                assert(rest.drop_first() =~= self.tasks.owned@.skip(i + 1));
            }
            if self.tasks.owned[i].id == id {
                let task = self.tasks.owned.remove(i);
                return Some(task);
            }
            i = i + 1;
        }
        proof {
            assert(self.tasks.owned@.skip(i as int).len() == 0);
        }
        None
    }

    /// Schedules a task from the scheduler's own thread: pushes it at the
    /// back of the local run queue.
    pub fn schedule(&mut self, task: Notified)
        ensures
            final(self).local() == old(self).local().push(task),
            final(self).owned() == old(self).owned(),
    {
        self.tasks.queue.push_back(task);
    }
}

impl Spawner {
    /// The remote run queue, first task first.
    pub closed spec fn remote(&self) -> Seq<Notified> {
        self.shared.queue@
    }

    /// The number of tasks spawned so far, which is the identifier of the
    /// next task.
    pub closed spec fn spawned(&self) -> usize {
        self.next_id
    }

    /// The number of tasks spawned so far.
    pub fn task_count(&self) -> (n: usize)
        ensures
            n == self.spawned(),
    {
        self.next_id
    }

    /// Spawns a task: creates its cell, referenced by the scheduler and by
    /// the join handle, and pushes the task at the back of the remote run
    /// queue. The task is bound to the scheduler when it is first run.
    pub fn spawn<T>(&mut self) -> (harness: Harness<T>)
        requires
            old(self).spawned() < usize::MAX,
        ensures
            harness.wf(),
            harness.is_fresh(),
            harness.id() == old(self).spawned(),
            final(self).spawned() == old(self).spawned() + 1,
            final(self).remote() == old(self).remote().push(
                Notified(Task { id: old(self).spawned() }),
            ),
    {
        let (task, harness) = joinable(self.next_id);
        self.next_id = self.next_id + 1;
        self.shared.queue.push_back(task);
        harness
    }

    /// Schedules a task from outside the scheduler: pushes it at the back of
    /// the remote run queue.
    pub fn schedule(&mut self, task: Notified)
        ensures
            final(self).remote() == old(self).remote().push(task),
            final(self).spawned() == old(self).spawned(),
    {
        self.shared.queue.push_back(task);
    }

    /// Takes the first task of the remote run queue.
    pub fn pop(&mut self) -> (task: Option<Notified>)
        ensures
            final(self).spawned() == old(self).spawned(),
            old(self).remote().len() == 0 ==> task is None && final(self).remote() == old(self).remote(),
            old(self).remote().len() > 0 ==> task == Some(old(self).remote()[0]) && final(self).remote() == old(self).remote().drop_first(),
    {
        let task = self.shared.queue.pop_front();
        proof {
            if task is Some {
                assert(self.shared.queue@ =~= old(self).shared.queue@.drop_first());
            }
        }
        task
    }
}

impl BasicScheduler {
    /// Whether the scheduler holds its tasks: it is not entered.
    pub closed spec fn has_tasks(&self) -> bool {
        self.tasks is Some
    }

    /// The tasks the scheduler holds while it is not entered.
    pub closed spec fn held_tasks(&self) -> Tasks {
        self.tasks->Some_0
    }

    /// The spawner.
    pub closed spec fn spec_spawner(&self) -> Spawner {
        self.spawner
    }

    /// The remote run queue, first task first.
    pub open spec fn remote(&self) -> Seq<Notified> {
        self.spec_spawner().remote()
    }

    /// The current tick.
    pub closed spec fn spec_tick(&self) -> u8 {
        self.tick
    }

    /// Where the scheduler stands between two polls of the root computation.
    pub closed spec fn spec_progress(&self) -> Progress {
        self.progress
    }

    /// The parker.
    pub closed spec fn spec_park(&self) -> ParkThread {
        self.park
    }

    /// A scheduler with no tasks, at tick zero, that parks on `park`.
    pub fn new(park: ParkThread) -> (s: BasicScheduler)
        ensures
            s.has_tasks(),
            s.held_tasks().local() == Seq::<Notified>::empty(),
            s.held_tasks().owned() == Seq::<Task>::empty(),
            s.remote() == Seq::<Notified>::empty(),
            s.spec_spawner().spawned() == 0,
            s.spec_tick() == 0,
            s.spec_progress() == Progress::Root,
            s.spec_park() == park,
    {
        BasicScheduler {
            tasks: Some(
                Tasks { owned: Vec::new(), queue: VecDeque::with_capacity(INITIAL_CAPACITY) },
            ),
            spawner: Spawner { shared: Shared { queue: VecDeque::new() }, next_id: 0 },
            tick: 0,
            park,
            progress: Progress::Root,
        }
    }

    /// The spawner.
    pub fn spawner(&mut self) -> (s: &mut Spawner)
        ensures
            *s == old(self).spec_spawner(),
            final(self).spec_spawner() == *final(s),
            final(self).has_tasks() == old(self).has_tasks(),
            final(self).has_tasks() ==> final(self).held_tasks() == old(self).held_tasks(),
            final(self).spec_tick() == old(self).spec_tick(),
            final(self).spec_progress() == old(self).spec_progress(),
            final(self).spec_park() == old(self).spec_park(),
    {
        &mut self.spawner
    }

    /// The parker.
    pub fn parker(&mut self) -> (p: &mut ParkThread)
        ensures
            *p == old(self).spec_park(),
            final(self).spec_park() == *final(p),
            final(self).has_tasks() == old(self).has_tasks(),
            final(self).has_tasks() ==> final(self).held_tasks() == old(self).held_tasks(),
            final(self).spec_tick() == old(self).spec_tick(),
            final(self).spec_progress() == old(self).spec_progress(),
            final(self).spec_spawner() == old(self).spec_spawner(),
    {
        &mut self.park
    }

    /// Spawns a task from outside the scheduler: the task is pushed at the
    /// back of the remote run queue, and the park token is made available,
    /// so that the scheduler does not block before it has seen the task.
    pub fn spawn<T>(&mut self) -> (harness: Harness<T>)
        requires
            old(self).spec_spawner().spawned() < usize::MAX,
        ensures
            harness.wf(),
            harness.is_fresh(),
            harness.id() == old(self).spec_spawner().spawned(),
            final(self).spec_spawner().spawned() == old(self).spec_spawner().spawned() + 1,
            final(self).remote() == old(self).remote().push(
                Notified(Task { id: old(self).spec_spawner().spawned() }),
            ),
            final(self).spec_park().state() == ParkState::Notified,
            final(self).has_tasks() == old(self).has_tasks(),
            final(self).has_tasks() ==> final(self).held_tasks() == old(self).held_tasks(),
            final(self).spec_tick() == old(self).spec_tick(),
            final(self).spec_progress() == old(self).spec_progress(),
    {
        let harness = self.spawner.spawn();
        let unpark = self.park.unpark();
        let _ = unpark.unpark(&mut self.park);
        harness
    }

    /// Schedules a task from outside the scheduler: the task is pushed at
    /// the back of the remote run queue and the park token is made
    /// available. Returns `true` if the scheduler's thread is blocked and
    /// must be signalled.
    pub fn schedule(&mut self, task: Notified) -> (signal: bool)
        ensures
            signal == (old(self).spec_park().state() == ParkState::Parked),
            final(self).remote() == old(self).remote().push(task),
            final(self).spec_spawner().spawned() == old(self).spec_spawner().spawned(),
            final(self).spec_park().state() == ParkState::Notified,
            final(self).has_tasks() == old(self).has_tasks(),
            final(self).has_tasks() ==> final(self).held_tasks() == old(self).held_tasks(),
            final(self).spec_tick() == old(self).spec_tick(),
            final(self).spec_progress() == old(self).spec_progress(),
    {
        self.spawner.schedule(task);
        let unpark = self.park.unpark();
        unpark.unpark(&mut self.park)
    }

    /// Routes a wake-up. A wake-up of the root computation makes the park
    /// token available, so that the thread does not block before the root
    /// has been polled again. A wake-up of a task is for the task's cell:
    /// its identifier is returned, for the caller to invoke the wake handle
    /// of that task.
    pub fn wake(&mut self, waker: Waker) -> (task: Option<usize>)
        ensures
            task == (match waker {
                Waker::Root => None,
                Waker::Task(id) => Some(id),
            }),
            final(self).spec_park().state() == (if waker is Root {
                ParkState::Notified
            } else {
                old(self).spec_park().state()
            }),
            final(self).spec_spawner() == old(self).spec_spawner(),
            final(self).has_tasks() == old(self).has_tasks(),
            final(self).has_tasks() ==> final(self).held_tasks() == old(self).held_tasks(),
            final(self).spec_tick() == old(self).spec_tick(),
            final(self).spec_progress() == old(self).spec_progress(),
    {
        match waker {
            Waker::Root => {
                let unpark = self.park.unpark();
                let _ = unpark.unpark(&mut self.park);
                None
            },
            Waker::Task(id) => Some(id),
        }
    }

    /// Returns `true` if the scheduler holds its tasks, so that it can be
    /// entered.
    pub fn can_enter(&self) -> (b: bool)
        ensures
            b == self.has_tasks(),
    {
        self.tasks.is_some()
    }

    /// Accounts for a poll of the root computation with outcome `root`.
    ///
    /// If the root computation is ready, its output is returned and the
    /// scheduler stops. If not, a batch of at most `MAX_TASKS_PER_TICK`
    /// tasks begins. The root computation is polled only while the scheduler
    /// is entered.
    pub fn block_on<T>(&mut self, root: crate::future::Poll<T>) -> (res: crate::future::Poll<T>)
        requires
            old(self).spec_progress() == Progress::Root,
            !old(self).has_tasks(),
        ensures
            res == root,
            final(self).spec_progress() == (if root is Ready {
                Progress::Root
            } else {
                Progress::Tasks(0)
            }),
            final(self).spec_tick() == old(self).spec_tick(),
            final(self).spec_spawner() == old(self).spec_spawner(),
            final(self).spec_park() == old(self).spec_park(),
            final(self).has_tasks() == old(self).has_tasks(),
            final(self).has_tasks() ==> final(self).held_tasks() == old(self).held_tasks(),
    {
        if root.is_pending() {
            self.progress = Progress::Tasks(0);
        }
        root
    }

    /// Decides what is done next while the scheduler is entered.
    ///
    /// Where the root computation is due, it is polled. Otherwise a task is
    /// picked, from the remote queue first at every tick that is a multiple
    /// of `REMOTE_FIRST_INTERVAL` and from the local queue first at all
    /// others, and the tick advances. If neither queue has a task, the
    /// thread parks and the root computation is due again. After
    /// `MAX_TASKS_PER_TICK` tasks in a row the scheduler yields to the
    /// parker instead, and the root computation is due again.
    pub fn next_step(&mut self, context: &mut Context) -> (step: Step)
        ensures
            final(self).spec_park() == old(self).spec_park(),
            final(self).spec_spawner().spawned() == old(self).spec_spawner().spawned(),
            final(self).has_tasks() == old(self).has_tasks(),
            final(self).has_tasks() ==> final(self).held_tasks() == old(self).held_tasks(),
            final(context).owned() == old(context).owned(),
            old(self).spec_progress() != Progress::Root ==> steps_until_root(
                final(self).spec_progress(),
            ) < steps_until_root(old(self).spec_progress()),
            match old(self).spec_progress() {
                Progress::Root => {
                    &&& step == Step::PollRoot
                    &&& final(self).spec_progress() == Progress::Root
                    &&& final(self).spec_tick() == old(self).spec_tick()
                    &&& final(self).remote() == old(self).remote()
                    &&& final(context).local() == old(context).local()
                },
                Progress::Tasks(n) if n >= MAX_TASKS_PER_TICK => {
                    &&& step == Step::Yield
                    &&& final(self).spec_progress() == Progress::Root
                    &&& final(self).spec_tick() == old(self).spec_tick()
                    &&& final(self).remote() == old(self).remote()
                    &&& final(context).local() == old(context).local()
                },
                Progress::Tasks(n) => {
                    let tick = old(self).spec_tick();
                    let local = old(context).local();
                    let remote = old(self).remote();
                    &&& final(self).spec_tick() == (if tick == 255 {
                        0u8
                    } else {
                        (tick + 1) as u8
                    })
                    &&& match spec_pick(tick, local, remote) {
                        Some(task) => {
                            &&& step == Step::Run(task)
                            &&& final(self).spec_progress() == Progress::Tasks((n + 1) as usize)
                            &&& final(self).remote() == (if picks_remote(tick, local, remote) {
                                remote.drop_first()
                            } else {
                                remote
                            })
                            &&& final(context).local() == (if picks_remote(tick, local, remote) {
                                local
                            } else {
                                local.drop_first()
                            })
                        },
                        None => {
                            &&& step == Step::Park
                            &&& final(self).spec_progress() == Progress::Root
                            &&& final(self).remote() == remote
                            &&& final(context).local() == local
                        },
                    }
                },
            },
    {
        let polled = match self.progress {
            Progress::Root => {
                return Step::PollRoot;
            },
            Progress::Tasks(n) => n,
        };
        if polled >= MAX_TASKS_PER_TICK {
            // Yield to the park, this drives the timer and pulls any pending
            // I/O events.
            self.progress = Progress::Root;
            return Step::Yield;
        }
        // Get and increment the current tick
        let tick = self.tick;
        self.tick = if tick == 255 {
            0
        } else {
            tick + 1
        };

        let next = if tick % REMOTE_FIRST_INTERVAL == 0 {
            match self.spawner.pop() {
                Some(task) => Some(task),
                None => context.pop_front(),
            }
        } else {
            match context.pop_front() {
                Some(task) => Some(task),
                None => self.spawner.pop(),
            }
        };

        match next {
            Some(task) => {
                self.progress = Progress::Tasks(polled + 1);
                Step::Run(task)
            },
            None => {
                // Park until the thread is signaled, then try polling the
                // root computation next
                self.progress = Progress::Root;
                Step::Park
            },
        }
    }
}

impl Context {
    /// Schedules a task that yields: the task runs again in the near
    /// future, after the tasks that are queued already.
    pub fn yield_now(&mut self, task: Notified)
        ensures
            final(self).local() == old(self).local().push(task),
            final(self).owned() == old(self).owned(),
    {
        self.schedule(task);
    }

    /// Takes the first task of the local run queue.
    pub fn pop_front(&mut self) -> (task: Option<Notified>)
        ensures
            final(self).owned() == old(self).owned(),
            old(self).local().len() == 0 ==> task is None && final(self).local() == old(self).local(),
            old(self).local().len() > 0 ==> task == Some(old(self).local()[0]) && final(self).local() == old(self).local().drop_first(),
    {
        let task = self.tasks.queue.pop_front();
        proof {
            if task is Some {
                assert(self.tasks.queue@ =~= old(self).tasks.queue@.drop_first());
            }
        }
        task
    }
}

/// Enters the scheduler: takes its tasks out and places them in the context
/// that the scheduler's decisions work on.
pub fn enter(scheduler: &mut BasicScheduler) -> (context: Context)
    requires
        old(scheduler).has_tasks(),
    ensures
        !final(scheduler).has_tasks(),
        context.spec_tasks() == old(scheduler).held_tasks(),
        final(scheduler).spec_spawner() == old(scheduler).spec_spawner(),
        final(scheduler).spec_tick() == old(scheduler).spec_tick(),
        final(scheduler).spec_progress() == old(scheduler).spec_progress(),
        final(scheduler).spec_park() == old(scheduler).spec_park(),
{
    // Remove `tasks` from `self` and place it in a `Context`.
    let tasks = scheduler.tasks.take().unwrap();
    Context { tasks }
}

/// Leaves the scheduler: places the tasks of the context back in the
/// scheduler, so that it can be entered again.
pub fn leave(scheduler: &mut BasicScheduler, context: Context)
    ensures
        final(scheduler).has_tasks(),
        final(scheduler).held_tasks() == context.spec_tasks(),
        final(scheduler).spec_spawner() == old(scheduler).spec_spawner(),
        final(scheduler).spec_tick() == old(scheduler).spec_tick(),
        final(scheduler).spec_progress() == old(scheduler).spec_progress(),
        final(scheduler).spec_park() == old(scheduler).spec_park(),
{
    scheduler.tasks = Some(context.tasks);
}

} // verus!
