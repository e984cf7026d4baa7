use tokio2::future::{Poll, Waker};
use tokio2::runtime::basic_scheduler::{enter as enter_scheduler, Step};
use tokio2::runtime::blocking::create_blocking_pool;
use tokio2::runtime::builder::Builder;
use tokio2::runtime::context;
use tokio2::runtime::enter::{enter, try_enter, EnterContext};
use tokio2::runtime::handle::Handle;
use tokio2::runtime::io::{self, BuildError};
use tokio2::runtime::task::harness::Harness;
use tokio2::runtime::task::{Notified, Task};
use tokio2::runtime::time;
use tokio2::runtime::{run, Kind, RunStep, Runtime};

#[test]
fn run_returns_the_output_of_a_ready_poll() {
    assert_eq!(run(Poll::Ready(5), false), RunStep::Done(5));
    assert_eq!(run(Poll::Ready(5), true), RunStep::Done(5));
    assert!(Poll::Ready(1).is_ready());
    assert!(Poll::<u8>::Pending.is_pending());
}

#[test]
fn wakers_wake_the_same_party_when_equal() {
    assert!(Waker::Root.will_wake(&Waker::Root));
    assert!(Waker::Task(3).will_wake(&Waker::Task(3)));
    assert!(!Waker::Task(3).will_wake(&Waker::Task(4)));
    assert!(!Waker::Task(0).will_wake(&Waker::Root));
}

#[test]
fn builder_builds_a_runtime_that_starts_at_the_root() {
    let mut builder = Builder::new();
    let built: Result<Runtime, BuildError> = builder.build();
    let mut rt = built.ok().unwrap();
    let Kind::Basic(exec) = &mut rt.kind;
    assert!(exec.can_enter());
    let mut cx = enter_scheduler(exec);
    assert_eq!(exec.next_step(&mut cx), Step::PollRoot);
    assert_eq!(exec.spawner().pop(), None);
}

#[test]
fn runtime_spawn_queues_tasks_in_order() {
    let mut rt = Runtime::new().ok().unwrap();
    let a: Harness<u8> = rt.spawn();
    let handle = *rt.handle();
    let b: Harness<u8> = handle.spawn(&mut rt);
    assert_eq!((a.task_id(), b.task_id()), (0, 1));
    let mut entered = EnterContext::NotEntered;
    let (guard, mut cx) = rt.start(&mut entered).unwrap();
    assert_eq!(rt.block_on::<u8>(Poll::Pending), Poll::Pending);
    let Kind::Basic(exec) = &mut rt.kind;
    assert_eq!(exec.next_step(&mut cx), Step::Run(Notified(Task { id: 0 })));
    assert_eq!(exec.next_step(&mut cx), Step::Run(Notified(Task { id: 1 })));
    assert_eq!(exec.next_step(&mut cx), Step::Park);
    assert_eq!(exec.next_step(&mut cx), Step::PollRoot);
    assert_eq!(rt.block_on(Poll::Ready(9u8)), Poll::Ready(9u8));
    rt.finish(&mut entered, guard, cx);
    assert_eq!(entered, EnterContext::NotEntered);
}

#[test]
fn pending_computation_parks_unless_woken() {
    assert_eq!(run::<u8>(Poll::Pending, false), RunStep::Park);
    assert_eq!(run::<u8>(Poll::Pending, true), RunStep::PollAgain);
}

#[test]
fn entering_sets_the_current_handle_and_restoring_puts_it_back() {
    let rt = Runtime::new().ok().unwrap();
    let mut current: Option<Handle> = None;
    let previous = rt.enter(&mut current);
    assert_eq!(previous, None);
    assert_eq!(current, Some(*rt.handle()));
    context::restore_current(&mut current, previous);
    assert_eq!(current, None);

    let outer = Handle { clock: time::create_clock() };
    let mut current = Some(outer);
    let previous = rt.handle().enter(&mut current);
    assert_eq!(previous, Some(outer));
    assert_eq!(current, Some(*rt.handle()));
    let inner = context::set_current(&mut current, outer);
    assert_eq!(inner, Some(*rt.handle()));
    context::restore_current(&mut current, inner);
    context::restore_current(&mut current, previous);
    assert_eq!(current, Some(outer));
}

#[test]
fn a_runtime_is_not_started_from_within_a_runtime() {
    let mut rt = Runtime::new().ok().unwrap();
    let mut other = Runtime::new().ok().unwrap();
    let mut entered = EnterContext::NotEntered;
    let (guard, mut cx) = rt.start(&mut entered).unwrap();
    assert_eq!(entered, EnterContext::Entered { allow_blocking: false });
    // the thread is inside an executor: no runtime starts on it
    assert!(other.start(&mut entered).is_none());
    assert!(rt.start(&mut entered).is_none());
    assert_eq!(entered, EnterContext::Entered { allow_blocking: false });
    let Kind::Basic(exec) = &mut rt.kind;
    assert!(!exec.can_enter());
    assert_eq!(exec.next_step(&mut cx), Step::PollRoot);
    rt.finish(&mut entered, guard, cx);
    assert_eq!(entered, EnterContext::NotEntered);
    let Kind::Basic(exec) = &mut rt.kind;
    assert!(exec.can_enter());
    // a scheduler that is entered already is not entered again
    let Kind::Basic(exec) = &mut other.kind;
    let cx = enter_scheduler(exec);
    assert!(other.start(&mut entered).is_none());
    assert_eq!(entered, EnterContext::NotEntered);
    let Kind::Basic(exec) = &mut other.kind;
    tokio2::runtime::basic_scheduler::leave(exec, cx);
    assert!(other.start(&mut entered).is_some());
}

#[test]
fn a_thread_enters_an_executor_once() {
    let mut entered = EnterContext::NotEntered;
    assert!(!entered.is_entered());
    let guard = enter(&mut entered, false);
    assert_eq!(entered, EnterContext::Entered { allow_blocking: false });
    assert!(try_enter(&mut entered, true).is_none());
    assert_eq!(entered, EnterContext::Entered { allow_blocking: false });
    guard.exit(&mut entered);
    assert_eq!(entered, EnterContext::NotEntered);
    assert!(try_enter(&mut entered, true).is_some());
    assert_eq!(entered, EnterContext::Entered { allow_blocking: true });
}

#[test]
fn shutdown_returns_the_pool_shut_down() {
    let rt = Runtime::new().ok().unwrap();
    let pool = rt.shutdown_timeout(10);
    assert!(pool.has_shut_down());
    let mut fresh = create_blocking_pool(4);
    assert!(!fresh.has_shut_down());
    fresh.shutdown(None);
    assert!(fresh.has_shut_down());
}

#[test]
fn drivers_are_parkers() {
    let mut driver = io::create_driver(true).ok().unwrap();
    assert_eq!(driver.park(), Ok(true));
    let mut timer = time::create_driver(true, driver, time::create_clock());
    let unpark = timer.unpark();
    assert!(unpark.unpark(&mut timer));
}
