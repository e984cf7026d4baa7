use tokio2::future::{Context, Poll, Waker};
use tokio2::park::{ParkThread, UnparkThread};
use tokio2::runtime::basic_scheduler::{
    enter, leave, BasicScheduler, Step, MAX_TASKS_PER_TICK, REMOTE_FIRST_INTERVAL,
};
use tokio2::runtime::task::harness::Harness;
use tokio2::runtime::task::{Notified, Task};
use tokio2::sync::mpsc::unbounded::unbounded_channel;

fn notified(id: usize) -> Notified {
    Notified(Task { id })
}

#[test]
fn magic_numbers_do_not_resonate() {
    assert_eq!(MAX_TASKS_PER_TICK, 61);
    assert_eq!(REMOTE_FIRST_INTERVAL, 31);
    assert_ne!(MAX_TASKS_PER_TICK % (REMOTE_FIRST_INTERVAL as usize), 0);
}

#[test]
fn root_is_polled_first_and_parks_without_tasks() {
    let mut s = BasicScheduler::new(ParkThread::new());
    assert!(s.can_enter());
    let mut cx = enter(&mut s);
    assert!(!s.can_enter());
    assert_eq!(s.next_step(&mut cx), Step::PollRoot);
    assert_eq!(s.next_step(&mut cx), Step::PollRoot);
    assert_eq!(s.block_on::<u8>(Poll::Pending), Poll::Pending);
    assert_eq!(s.next_step(&mut cx), Step::Park);
    assert_eq!(s.parker().park(), Ok(true));
    assert_eq!(s.next_step(&mut cx), Step::PollRoot);
    assert_eq!(s.block_on(Poll::Ready(3u8)), Poll::Ready(3u8));
    assert_eq!(s.next_step(&mut cx), Step::PollRoot);
    leave(&mut s, cx);
    assert!(s.can_enter());
}

#[test]
fn remote_queue_goes_first_at_every_31st_tick() {
    let mut s = BasicScheduler::new(ParkThread::new());
    let mut cx = enter(&mut s);
    for id in 0..40usize {
        cx.schedule(notified(id));
    }
    s.spawner().schedule(notified(100));
    s.spawner().schedule(notified(101));
    s.spawner().schedule(notified(102));
    assert_eq!(s.block_on::<u8>(Poll::Pending), Poll::Pending);
    // tick 0: remote first
    assert_eq!(s.next_step(&mut cx), Step::Run(notified(100)));
    // ticks 1 to 30: local first
    for id in 0..30usize {
        assert_eq!(s.next_step(&mut cx), Step::Run(notified(id)));
    }
    // tick 31: remote first
    assert_eq!(s.next_step(&mut cx), Step::Run(notified(101)));
    // ticks 32 to 41: the rest of the local queue
    for id in 30..40usize {
        assert_eq!(s.next_step(&mut cx), Step::Run(notified(id)));
    }
    // tick 42: the local queue is empty, the remote queue steps in
    assert_eq!(s.next_step(&mut cx), Step::Run(notified(102)));
    assert_eq!(s.next_step(&mut cx), Step::Park);
    assert_eq!(s.next_step(&mut cx), Step::PollRoot);
}

#[test]
fn after_61_tasks_the_scheduler_yields_and_polls_the_root() {
    let mut s = BasicScheduler::new(ParkThread::new());
    let mut cx = enter(&mut s);
    for id in 0..100usize {
        cx.schedule(notified(id));
    }
    assert_eq!(s.block_on::<u8>(Poll::Pending), Poll::Pending);
    for id in 0..61usize {
        assert_eq!(s.next_step(&mut cx), Step::Run(notified(id)));
    }
    assert_eq!(s.next_step(&mut cx), Step::Yield);
    assert_eq!(s.parker().park_timeout(0), Ok(false));
    assert_eq!(s.next_step(&mut cx), Step::PollRoot);
    assert_eq!(s.block_on::<u8>(Poll::Pending), Poll::Pending);
    // the tick went on counting: tick 61, and tick 62 is remote first
    assert_eq!(s.next_step(&mut cx), Step::Run(notified(61)));
    s.spawner().schedule(notified(500));
    assert_eq!(s.next_step(&mut cx), Step::Run(notified(500)));
    assert_eq!(s.next_step(&mut cx), Step::Run(notified(62)));
}

#[test]
fn tick_wraps_around() {
    let mut s = BasicScheduler::new(ParkThread::new());
    let mut cx = enter(&mut s);
    let mut ran = 0usize;
    // 255 tasks, and one tick at which nothing was found: back at tick 0
    while ran < 255 {
        assert_eq!(s.block_on::<u8>(Poll::Pending), Poll::Pending);
        let mut batch = 0;
        while batch < 61 && ran < 255 {
            cx.schedule(notified(ran));
            assert_eq!(s.next_step(&mut cx), Step::Run(notified(ran)));
            ran += 1;
            batch += 1;
        }
        if batch == 61 {
            assert_eq!(s.next_step(&mut cx), Step::Yield);
        } else {
            assert_eq!(s.next_step(&mut cx), Step::Park);
        }
    }
    assert_eq!(s.block_on::<u8>(Poll::Pending), Poll::Pending);
    cx.schedule(notified(1));
    s.spawner().schedule(notified(2));
    assert_eq!(s.next_step(&mut cx), Step::Run(notified(2)));
    assert_eq!(s.next_step(&mut cx), Step::Run(notified(1)));
}

#[test]
fn spawner_numbers_tasks_and_queues_them_remotely() {
    let mut s = BasicScheduler::new(ParkThread::new());
    let a: Harness<u8> = s.spawner().spawn();
    let b: Harness<String> = s.spawner().spawn();
    assert_eq!(a.task_id(), 0);
    assert_eq!(b.task_id(), 1);
    assert_eq!(s.spawner().pop(), Some(notified(0)));
    assert_eq!(s.spawner().pop(), Some(notified(1)));
    assert_eq!(s.spawner().pop(), None);
}

#[test]
fn bind_and_release_keep_the_owned_tasks() {
    let mut s = BasicScheduler::new(ParkThread::new());
    let mut cx = enter(&mut s);
    cx.bind(Task { id: 1 });
    cx.bind(Task { id: 2 });
    cx.bind(Task { id: 3 });
    assert_eq!(cx.release(2), Some(Task { id: 2 }));
    assert_eq!(cx.release(2), None);
    assert_eq!(cx.release(7), None);
    assert_eq!(cx.release(3), Some(Task { id: 3 }));
    assert_eq!(cx.release(1), Some(Task { id: 1 }));
    assert_eq!(cx.release(1), None);
    assert_eq!(cx.pop_front(), None);
}

#[test]
fn park_token_protocol() {
    let mut park = ParkThread::new();
    let unpark: UnparkThread = park.unpark();
    // token made available before parking: no blocking
    assert!(!unpark.unpark(&mut park));
    assert_eq!(park.park(), Ok(false));
    // no token: the thread blocks, and every unpark that finds it blocked
    // asks for a signal
    assert_eq!(park.park(), Ok(true));
    assert!(unpark.unpark(&mut park));
    park.resume();
    assert_eq!(park.park_timeout(0), Ok(false));
    assert_eq!(park.park_timeout(5), Ok(true));
    assert!(unpark.unpark(&mut park));
    assert!(!unpark.unpark(&mut park));
    park.resume();
    assert!(!unpark.unpark(&mut park));
    assert_eq!(park.park_timeout(5), Ok(false));
}

// A task sends "hello" then "world" and completes; the root computation
// receives both, and then the end of the stream once the sender is gone.
#[test]
fn spawned_task_sends_hello_world() {
    let mut s = BasicScheduler::new(ParkThread::new());
    let (tx, mut rx) = unbounded_channel::<&str>();
    let mut task: Harness<()> = s.spawner().spawn();
    let mut cx = enter(&mut s);
    let mut root_cx = Context::from_waker(Waker::Root);
    let mut received = Vec::new();
    let mut tx = Some(tx);
    let mut steps = Vec::new();
    let output = loop {
        match s.next_step(&mut cx) {
            Step::PollRoot => {
                steps.push("root");
                // the root computation: three receives in a row
                let polled = loop {
                    if received.len() == 3 {
                        break Poll::Ready(received.clone());
                    }
                    match rx.recv(&mut root_cx) {
                        Poll::Ready(m) => received.push(m),
                        Poll::Pending => break Poll::Pending,
                    }
                };
                if let Poll::Ready(out) = s.block_on(polled) {
                    break out;
                }
            }
            Step::Run(n) => {
                steps.push("task");
                assert_eq!(n.id(), task.task_id());
                cx.bind(Task { id: n.id() });
                let sender = tx.take().unwrap();
                assert_eq!(sender.send(&mut rx, "hello"), Ok(Some(Waker::Root)));
                assert_eq!(sender.send(&mut rx, "world"), Ok(None));
                assert_eq!(sender.drop_sender(&mut rx), None);
                assert_eq!(task.run(Poll::Ready(Ok(()))), None);
                assert!(cx.release(n.id()).is_some());
                task.drop_reference();
            }
            Step::Park => {
                steps.push("park");
                // the root was woken by the send: the token is there
                let unpark = s.parker().unpark();
                unpark.unpark(s.parker());
                assert_eq!(s.parker().park(), Ok(false));
            }
            Step::Yield => steps.push("yield"),
        }
    };
    assert_eq!(output, vec![Some("hello"), Some("world"), None]);
    assert_eq!(steps, vec!["root", "task", "park", "root"]);
    assert!(!task.is_deallocated());
    task.drop_join_handle();
    assert!(task.is_deallocated());
    leave(&mut s, cx);
}

// The root computation awaits a receive on a channel whose only sender is
// never used. The scheduler parks once, and the root gets the end of the
// stream once the sender is gone.
#[test]
fn root_parks_until_the_last_sender_is_gone() {
    let mut s = BasicScheduler::new(ParkThread::new());
    let (tx, mut rx) = unbounded_channel::<u8>();
    let mut tx = Some(tx);
    let mut cx = enter(&mut s);
    let mut root_cx = Context::from_waker(Waker::Root);
    let mut polls = 0;
    let mut parks = 0;
    let output = loop {
        match s.next_step(&mut cx) {
            Step::PollRoot => {
                polls += 1;
                if let Poll::Ready(out) = s.block_on(rx.recv(&mut root_cx)) {
                    break out;
                }
            }
            Step::Park => {
                parks += 1;
                // no token: the thread blocks
                assert_eq!(s.parker().park(), Ok(true));
                // ... until the sender is dropped elsewhere, which wakes the
                // root
                let wake = tx.take().unwrap().drop_sender(&mut rx);
                assert_eq!(wake, Some(Waker::Root));
                let unpark = s.parker().unpark();
                assert!(unpark.unpark(s.parker()));
                s.parker().resume();
            }
            Step::Run(_) => panic!("there is no task"),
            Step::Yield => panic!("no batch was run"),
        }
    };
    assert_eq!(output, None);
    assert_eq!(polls, 2);
    assert_eq!(parks, 1);
    leave(&mut s, cx);
}

#[test]
fn receive_without_any_sender_ends_at_the_first_poll() {
    let mut s = BasicScheduler::new(ParkThread::new());
    let (tx, mut rx) = unbounded_channel::<u8>();
    assert_eq!(tx.drop_sender(&mut rx), None);
    let mut cx = enter(&mut s);
    let mut root_cx = Context::from_waker(Waker::Root);
    assert_eq!(s.next_step(&mut cx), Step::PollRoot);
    assert_eq!(s.block_on(rx.recv(&mut root_cx)), Poll::Ready(None));
    assert_eq!(s.next_step(&mut cx), Step::PollRoot);
}

#[test]
fn task_is_bound_at_first_execution_and_released_at_completion() {
    let mut s = BasicScheduler::new(ParkThread::new());
    let mut a: Harness<u8> = s.spawner().spawn();
    let mut b: Harness<u8> = s.spawner().spawn();
    let mut cx = enter(&mut s);
    assert!(a.bind_scheduler(&mut cx));
    assert!(!a.bind_scheduler(&mut cx));
    assert!(b.bind_scheduler(&mut cx));
    a.run(Poll::Ready(Ok(1)));
    a.release(&mut cx);
    assert!(!a.is_deallocated());
    // the task is no longer among the owned tasks, the other one is
    assert_eq!(cx.release(a.task_id()), None);
    assert_eq!(cx.release(b.task_id()), Some(Task { id: 1 }));
    a.drop_join_handle();
    assert!(a.is_deallocated());
}

#[test]
fn remote_schedule_makes_the_park_token_available() {
    let mut s = BasicScheduler::new(ParkThread::new());
    // not parked: no signal, but the next park does not block
    assert!(!s.schedule(notified(1)));
    assert_eq!(s.parker().park(), Ok(false));
    // parked: the thread must be signalled
    assert_eq!(s.parker().park(), Ok(true));
    assert!(s.schedule(notified(2)));
    s.parker().resume();
    let _task: Harness<u8> = s.spawn();
    assert_eq!(s.parker().park(), Ok(false));
    assert_eq!(s.spawner().pop(), Some(notified(1)));
    assert_eq!(s.spawner().pop(), Some(notified(2)));
    assert_eq!(s.spawner().pop(), Some(notified(0)));
}

#[test]
fn yielding_task_goes_behind_the_queued_ones() {
    let mut s = BasicScheduler::new(ParkThread::new());
    let mut cx = enter(&mut s);
    cx.schedule(notified(1));
    cx.yield_now(notified(2));
    cx.schedule(notified(3));
    assert_eq!(cx.pop_front(), Some(notified(1)));
    assert_eq!(cx.pop_front(), Some(notified(2)));
    assert_eq!(cx.pop_front(), Some(notified(3)));
}

#[test]
fn wake_of_the_root_makes_the_token_available() {
    let mut s = BasicScheduler::new(ParkThread::new());
    assert_eq!(s.wake(Waker::Task(5)), Some(5));
    assert_eq!(s.parker().park(), Ok(true));
    s.parker().resume();
    assert_eq!(s.wake(Waker::Root), None);
    assert_eq!(s.parker().park(), Ok(false));
}
