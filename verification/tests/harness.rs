use tokio2::future::{Poll, Waker};
use tokio2::park::ParkThread;
use tokio2::runtime::basic_scheduler::{enter, BasicScheduler};
use tokio2::runtime::task::harness::Harness;
use tokio2::runtime::task::{joinable, JoinError, Notified, Task};

#[test]
fn joinable_gives_a_fresh_task() {
    let (notified, harness) = joinable::<u32>(7);
    assert_eq!(notified.id(), 7);
    assert_eq!(harness.task_id(), 7);
    assert!(!harness.is_deallocated());
    let s = harness.snapshot();
    assert_eq!(s.ref_count(), 2);
    assert!(s.is_join_interested());
    assert!(s.is_notified());
    assert!(!s.is_complete());
}

#[test]
fn output_is_read_at_most_once() {
    let mut h: Harness<u32> = Harness::new(1);
    assert!(!h.has_output());
    assert_eq!(h.run(Poll::Ready(Ok(42))), None);
    assert!(h.has_output());
    let mut dst = Poll::Pending;
    h.try_read_output(&mut dst, &Waker::Root);
    assert_eq!(dst, Poll::Ready(Ok(42)));
    // the output is gone: the task admits no further read
    assert!(!h.has_output());
    assert!(h.snapshot().is_complete());
    assert!(h.has_join_handle());
}

#[test]
fn references_can_be_asked_for() {
    let mut h: Harness<u32> = Harness::new(1);
    assert!(h.has_join_handle());
    assert!(h.has_scheduler());
    h.drop_join_handle();
    assert!(!h.has_join_handle());
    assert!(h.has_scheduler());
    h.run(Poll::Ready(Ok(1)));
    // nobody will read: the output was discarded
    assert!(!h.has_output());
    h.drop_reference();
    assert!(!h.has_scheduler());
    assert!(h.is_deallocated());
    assert!(!h.has_output());
}

#[test]
fn set_join_waker_takes_a_stale_snapshot() {
    let mut h: Harness<u32> = Harness::new(4);
    let stale = h.snapshot();
    h.run(Poll::Pending);
    // the word has changed since the snapshot was taken
    assert_ne!(stale.0, h.snapshot().0);
    let res = h.set_join_waker(Waker::Task(1), stale);
    assert!(matches!(res, Ok(s) if s.has_join_waker() && !s.is_notified()));

    let mut done: Harness<u32> = Harness::new(5);
    let stale = done.snapshot();
    done.run(Poll::Ready(Ok(1)));
    let now = done.snapshot();
    let res = done.set_join_waker(Waker::Task(1), stale);
    assert!(matches!(res, Err(s) if s.0 == now.0));
}

#[test]
fn read_before_completion_stores_the_waker() {
    let mut h: Harness<u32> = Harness::new(2);
    let mut dst = Poll::Pending;
    h.try_read_output(&mut dst, &Waker::Task(9));
    assert_eq!(dst, Poll::Pending);
    assert!(h.snapshot().has_join_waker());
    assert!(!h.snapshot().is_complete());

    // the same waker again: nothing to do
    h.try_read_output(&mut dst, &Waker::Task(9));
    assert_eq!(dst, Poll::Pending);

    // another waker takes the place of the first
    h.try_read_output(&mut dst, &Waker::Root);
    assert_eq!(dst, Poll::Pending);
    assert!(h.snapshot().has_join_waker());

    // a step that does not finish wakes nobody
    assert_eq!(h.run(Poll::Pending), None);
    assert!(!h.snapshot().is_notified());

    // completion hands back the waker stored last
    assert_eq!(h.run(Poll::Ready(Ok(5))), Some(Waker::Root));
    h.try_read_output(&mut dst, &Waker::Root);
    assert_eq!(dst, Poll::Ready(Ok(5)));
}

#[test]
fn failure_of_a_step_reaches_the_join_handle() {
    let mut h: Harness<u32> = Harness::new(3);
    assert_eq!(h.run(Poll::Ready(Err(JoinError::Panic))), None);
    let mut dst = Poll::Pending;
    h.try_read_output(&mut dst, &Waker::Root);
    assert_eq!(dst, Poll::Ready(Err(JoinError::Panic)));
}

#[test]
fn set_join_waker_fails_on_a_complete_task() {
    let mut h: Harness<u32> = Harness::new(4);
    let before = h.snapshot();
    let res = h.set_join_waker(Waker::Task(1), before);
    assert!(matches!(res, Ok(s) if s.has_join_waker()));

    let mut done: Harness<u32> = Harness::new(5);
    done.run(Poll::Ready(Ok(1)));
    let snapshot = done.snapshot();
    let res = done.set_join_waker(Waker::Task(1), snapshot);
    assert!(matches!(res, Err(s) if s.is_complete() && !s.has_join_waker()));
    assert!(!done.snapshot().has_join_waker());
}

#[test]
fn freed_after_join_drop_then_completion_then_release() {
    let mut h: Harness<u32> = Harness::new(6);
    h.drop_join_handle();
    assert!(!h.is_deallocated());
    assert_eq!(h.snapshot().ref_count(), 1);
    assert!(!h.snapshot().is_join_interested());
    assert_eq!(h.run(Poll::Ready(Ok(1))), None);
    assert!(!h.is_deallocated());
    h.drop_reference();
    assert!(h.is_deallocated());
}

#[test]
fn freed_after_completion_then_release_then_join_drop() {
    let mut h: Harness<u32> = Harness::new(7);
    h.run(Poll::Ready(Ok(1)));
    h.drop_reference();
    assert!(!h.is_deallocated());
    assert_eq!(h.snapshot().ref_count(), 1);
    h.drop_join_handle();
    assert!(h.is_deallocated());
}

#[test]
fn freed_after_completion_then_join_drop_then_release() {
    let mut h: Harness<u32> = Harness::new(8);
    h.run(Poll::Ready(Ok(1)));
    h.drop_join_handle_slow();
    assert!(!h.is_deallocated());
    // the join handle could not clear its interest: the task was complete
    assert!(h.snapshot().is_join_interested());
    assert_eq!(h.snapshot().ref_count(), 1);
    h.drop_reference();
    assert!(h.is_deallocated());
}

#[test]
fn slow_drop_of_a_polled_join_handle_clears_interest() {
    let mut h: Harness<u32> = Harness::new(9);
    let mut dst = Poll::Pending;
    h.try_read_output(&mut dst, &Waker::Task(3));
    h.drop_join_handle();
    assert!(!h.snapshot().is_join_interested());
    assert_eq!(h.snapshot().ref_count(), 1);
    // nobody is interested: completion wakes nobody
    assert_eq!(h.run(Poll::Ready(Ok(1))), None);
    h.drop_reference();
    assert!(h.is_deallocated());
}

#[test]
fn wake_submits_a_task_that_is_not_queued() {
    let mut h: Harness<u32> = Harness::new(11);
    // a new task is queued already
    assert_eq!(h.wake_by_ref(), None);
    assert_eq!(h.run(Poll::Pending), None);
    let submit = h.wake_by_ref();
    assert_eq!(submit.map(|n| n.id()), Some(11));
    assert_eq!(h.wake_by_ref(), None);
    h.run(Poll::Ready(Ok(1)));
    assert_eq!(h.wake_by_ref(), None);
}

#[test]
fn cancelled_task_reports_cancellation_to_the_join_handle() {
    let mut h: Harness<u32> = Harness::new(12);
    let mut dst = Poll::Pending;
    h.try_read_output(&mut dst, &Waker::Task(1));
    assert_eq!(h.shutdown(), Some(Waker::Task(1)));
    assert!(h.snapshot().is_complete());
    assert!(h.snapshot().is_cancelled());
    h.try_read_output(&mut dst, &Waker::Task(1));
    assert_eq!(dst, Poll::Ready(Err(JoinError::Cancelled)));
    h.drop_reference();
    h.drop_join_handle();
    assert!(h.is_deallocated());

    let mut detached: Harness<u32> = Harness::new(13);
    detached.drop_join_handle();
    assert_eq!(detached.shutdown(), None);
    detached.drop_reference();
    assert!(detached.is_deallocated());
}

#[test]
fn local_wake_queues_the_task_once() {
    let mut s = BasicScheduler::new(ParkThread::new());
    let mut h: Harness<u32> = s.spawn();
    let mut cx = enter(&mut s);
    // a new task is queued already
    h.wake_local(&mut cx);
    assert_eq!(cx.pop_front(), None);
    h.run(Poll::Pending);
    h.wake_local(&mut cx);
    h.wake_local(&mut cx);
    assert_eq!(cx.pop_front().map(|n| n.id()), Some(0));
    assert_eq!(cx.pop_front(), None);
}

#[test]
fn poll_binds_requeues_and_releases() {
    let mut s = BasicScheduler::new(ParkThread::new());
    let mut h: Harness<u32> = s.spawn();
    let mut cx = enter(&mut s);
    // first execution, pending, not woken: bound, not queued
    assert_eq!(h.poll(&mut cx, Poll::Pending, false), None);
    assert_eq!(cx.pop_front(), None);
    assert!(!h.snapshot().is_notified());
    // pending and woken: queued again at the back
    cx.schedule(Notified(Task { id: 9 }));
    assert_eq!(h.poll(&mut cx, Poll::Pending, true), None);
    assert!(h.snapshot().is_notified());
    assert_eq!(cx.pop_front(), Some(Notified(Task { id: 9 })));
    assert_eq!(cx.pop_front(), Some(Notified(Task { id: 0 })));
    // the join handle waits
    let mut dst = Poll::Pending;
    h.try_read_output(&mut dst, &Waker::Root);
    // finished: the join waker comes back, the task is released
    assert_eq!(h.poll(&mut cx, Poll::Ready(Ok(3)), true), Some(Waker::Root));
    assert!(!h.has_scheduler());
    assert_eq!(cx.release(0), None);
    assert_eq!(cx.pop_front(), None);
    assert!(!h.is_deallocated());
    h.try_read_output(&mut dst, &Waker::Root);
    assert_eq!(dst, Poll::Ready(Ok(3)));
    h.drop_join_handle();
    assert!(h.is_deallocated());
}

#[test]
fn poll_of_a_detached_task_frees_it_at_completion() {
    let mut s = BasicScheduler::new(ParkThread::new());
    let mut h: Harness<u32> = s.spawn();
    let mut cx = enter(&mut s);
    h.drop_join_handle();
    assert_eq!(h.poll(&mut cx, Poll::Ready(Ok(3)), false), None);
    assert!(h.is_deallocated());
    assert_eq!(cx.release(0), None);
}
