//! The harness: the operations on a task cell.
//!
//! A cell is referenced by the scheduler and by the join handle. The harness
//! keeps the cell until the last of the two lets go, and then deallocates it.

use crate::future::{Poll, Waker};
use crate::runtime::basic_scheduler::Context;
use crate::runtime::task::cell::{Cell, Stage};
use crate::runtime::task::state::{initial_flags, Flags, Snapshot, State};
use crate::runtime::task::{JoinError, Notified, Task};
use vstd::prelude::*;

verus! {

/// The events that bear on the references to a task.
pub enum RefEvent {
    /// The join handle is dropped.
    JoinHandleDropped,
    /// The task completes, by finishing or by being cancelled.
    Completed,
    /// The scheduler releases the task.
    SchedulerReleased,
}

/// What the fate of a task's cell depends on.
pub struct RefState {
    /// The join handle holds its reference.
    pub join_held: bool,
    /// The scheduler holds its reference.
    pub sched_held: bool,
    /// The task has completed.
    pub complete: bool,
    /// The cell has been deallocated.
    pub freed: bool,
}

/// The references of a task that has just been created.
pub open spec fn ref_initial() -> RefState {
    RefState { join_held: true, sched_held: true, complete: false, freed: false }
}

/// Whether an event can happen: each reference is given up once, a task
/// completes once and while the scheduler holds it, and the scheduler
/// releases only a task that has completed.
pub open spec fn ref_admits(s: RefState, e: RefEvent) -> bool {
    match e {
        RefEvent::JoinHandleDropped => s.join_held,
        RefEvent::Completed => s.sched_held && !s.complete,
        RefEvent::SchedulerReleased => s.sched_held && s.complete,
    }
}

/// The references after an event. The cell is deallocated by the event
/// that gives up the last reference.
pub open spec fn ref_apply(s: RefState, e: RefEvent) -> RefState {
    let join_held = s.join_held && !(e is JoinHandleDropped);
    let sched_held = s.sched_held && !(e is SchedulerReleased);
    RefState {
        join_held,
        sched_held,
        complete: s.complete || e is Completed,
        freed: !join_held && !sched_held,
    }
}

/// The references after a sequence of events.
pub open spec fn ref_run(s: RefState, events: Seq<RefEvent>) -> RefState
    decreases events.len(),
{
    if events.len() == 0 {
        s
    } else {
        ref_apply(ref_run(s, events.drop_last()), events.last())
    }
}

/// Whether every event of a sequence can happen in its turn.
pub open spec fn ref_valid(s: RefState, events: Seq<RefEvent>) -> bool
    decreases events.len(),
{
    events.len() == 0 || (ref_valid(s, events.drop_last()) && ref_admits(
        ref_run(s, events.drop_last()),
        events.last(),
    ))
}

/// How often the cell is deallocated in the course of a sequence of events.
pub open spec fn ref_frees(s: RefState, events: Seq<RefEvent>) -> nat
    decreases events.len(),
{
    if events.len() == 0 {
        0
    } else {
        ref_frees(s, events.drop_last()) + (if ref_run(s, events).freed && !ref_run(
            s,
            events.drop_last(),
        ).freed {
            1nat
        } else {
            0nat
        })
    }
}

/// In whatever order the join handle is dropped, the task completes and the
/// scheduler releases it: the cell is deallocated exactly when both
/// references have been given up, only after the task has completed, and
/// once. After that nothing more can happen to the task.
pub proof fn lemma_freed_exactly_once(events: Seq<RefEvent>)
    requires
        ref_valid(ref_initial(), events),
    ensures
        ref_run(ref_initial(), events).freed <==> !ref_run(ref_initial(), events).join_held
            && !ref_run(ref_initial(), events).sched_held,
        ref_run(ref_initial(), events).freed ==> ref_run(ref_initial(), events).complete,
        !ref_run(ref_initial(), events).sched_held ==> ref_run(ref_initial(), events).complete,
        ref_frees(ref_initial(), events) == (if ref_run(ref_initial(), events).freed {
            1nat
        } else {
            0nat
        }),
        ref_run(ref_initial(), events).freed ==> forall|e: RefEvent|
            !ref_admits(ref_run(ref_initial(), events), e),
    decreases events.len(),
{
    if events.len() > 0 {
        lemma_freed_exactly_once(events.drop_last());
    }
}

/// A task cell together with the record of who still references it.
pub struct Harness<T> {
    cell: Option<Cell<T>>,
    id: usize,
    /// Whether the join handle still holds its reference.
    join_ref: bool,
    /// Whether the scheduler still holds its reference.
    sched_ref: bool,
}

impl<T> Harness<T> {
    /// The task's identifier.
    pub closed spec fn id(&self) -> usize {
        self.id
    }

    /// Whether the cell has been deallocated.
    pub closed spec fn is_freed(&self) -> bool {
        self.cell is None
    }

    /// The cell, while it is allocated.
    pub closed spec fn cell(&self) -> Cell<T> {
        self.cell->Some_0
    }

    /// Whether the join handle still holds its reference.
    pub closed spec fn join_held(&self) -> bool {
        self.join_ref
    }

    /// Whether the scheduler still holds its reference.
    pub closed spec fn sched_held(&self) -> bool {
        self.sched_ref
    }

    /// The meaning of the lifecycle word.
    pub open spec fn flags(&self) -> Flags {
        self.cell().header.state@
    }

    /// The stage of the core.
    pub open spec fn stage(&self) -> Stage<T> {
        self.cell().core.stage
    }

    /// The handle stored for whoever waits for completion.
    pub open spec fn join_waker(&self) -> Option<Waker> {
        self.cell().trailer.waker
    }

    /// Whether the task has been bound to a scheduler.
    pub open spec fn is_bound(&self) -> bool {
        self.cell().core.bound
    }

    /// The references to the task, as the events on them see it.
    pub open spec fn ref_state(&self) -> RefState {
        RefState {
            join_held: self.join_held(),
            sched_held: self.sched_held(),
            complete: self.is_freed() || self.flags().complete,
            freed: self.is_freed(),
        }
    }

    /// The number of references held.
    pub open spec fn held(&self) -> nat {
        (if self.join_held() { 1nat } else { 0nat }) + (if self.sched_held() { 1nat } else { 0nat })
    }

    /// The invariant of a task.
    ///
    /// The cell is gone exactly when nobody holds it. While it is there, the
    /// count in the lifecycle word is the number of holders, `COMPLETE` is set
    /// exactly when the computation is no longer live, `JOIN_INTEREST` of a
    /// live task tells whether the join handle is around, the scheduler has
    /// let go only of a complete task, and an output that nobody will read
    /// has been discarded.
    pub open spec fn wf(&self) -> bool {
        &&& self.is_freed() <==> !self.join_held() && !self.sched_held()
        &&& !self.is_freed() ==> {
            &&& self.flags().ref_count == self.held()
            &&& self.flags().complete <==> !(self.stage() is Running)
            &&& self.flags().join_waker ==> self.join_waker() is Some
            &&& self.join_held() ==> self.flags().join_interest
            &&& self.flags().join_interest && !self.flags().complete ==> self.join_held()
            &&& !self.sched_held() ==> self.flags().complete
            &&& self.flags().complete && !(self.join_held() && self.flags().join_interest)
                ==> self.stage() is Consumed
        }
    }

    /// Whether the join handle may read: it holds its reference, and if the
    /// task is complete, its output has not been read before.
    pub open spec fn output_readable(&self) -> bool {
        &&& !self.is_freed()
        &&& self.join_held()
        &&& self.flags().complete ==> self.stage() is Finished
    }

    /// The state of a task that has just been created.
    pub open spec fn is_fresh(&self) -> bool {
        &&& !self.is_freed()
        &&& self.join_held()
        &&& self.sched_held()
        &&& self.flags() == initial_flags()
        &&& self.stage() is Running
        &&& self.join_waker() is None
        &&& !self.is_bound()
        &&& self.ref_state() == ref_initial()
    }

    /// A harness around a new cell, referenced by the scheduler and by the
    /// join handle.
    pub fn new(id: usize) -> (h: Harness<T>)
        ensures
            h.id() == id,
            h.wf(),
            h.is_fresh(),
    {
        Harness {
            cell: Some(Cell::new(State::new())),
            id,
            join_ref: true,
            sched_ref: true,
        }
    }

    /// The task's identifier.
    pub fn task_id(&self) -> (id: usize)
        ensures
            id == self.id(),
    {
        self.id
    }

    /// Returns `true` once the cell has been deallocated.
    pub fn is_deallocated(&self) -> (b: bool)
        ensures
            b == self.is_freed(),
    {
        self.cell.is_none()
    }

    /// Returns `true` while the join handle holds its reference: it has not
    /// been dropped.
    pub fn has_join_handle(&self) -> (b: bool)
        ensures
            b == self.join_held(),
    {
        self.join_ref
    }

    /// Returns `true` while the scheduler holds its reference: the task has
    /// not been released.
    pub fn has_scheduler(&self) -> (b: bool)
        ensures
            b == self.sched_held(),
    {
        self.sched_ref
    }

    /// Returns `true` if the output of the task is stored and has not been
    /// read or discarded.
    pub fn has_output(&self) -> (b: bool)
        ensures
            b == (!self.is_freed() && self.stage() is Finished),
    {
        match &self.cell {
            Some(cell) => match &cell.core.stage {
                Stage::Finished(_) => true,
                _ => false,
            },
            None => false,
        }
    }

    /// Loads the lifecycle word.
    pub fn snapshot(&self) -> (s: Snapshot)
        requires
            !self.is_freed(),
        ensures
            s@ == self.flags(),
    {
        match &self.cell {
            Some(cell) => cell.header.state.load(),
            None => Snapshot(0),
        }
    }

    /// Deallocates the cell.
    fn dealloc(&mut self)
        requires
            !old(self).is_freed(),
        ensures
            final(self).is_freed(),
            final(self).id() == old(self).id(),
            final(self).join_held() == old(self).join_held(),
            final(self).sched_held() == old(self).sched_held(),
    {
        self.cell = None;
    }

    /// Binds the task to the scheduler whose context is `context`, if it has
    /// not been bound before: the task is registered at the front of the
    /// scheduler's owned tasks. This is done when the task is first
    /// executed, not when it is spawned. Returns `true` if the task was
    /// bound by this call.
    pub fn bind_scheduler(&mut self, context: &mut Context) -> (first: bool)
        requires
            old(self).wf(),
            !old(self).is_freed(),
        ensures
            final(self).wf(),
            final(self).id() == old(self).id(),
            !final(self).is_freed(),
            final(self).join_held() == old(self).join_held(),
            final(self).sched_held() == old(self).sched_held(),
            final(self).join_waker() == old(self).join_waker(),
            final(self).stage() == old(self).stage(),
            final(self).flags() == old(self).flags(),
            final(self).is_bound(),
            first == !old(self).is_bound(),
            final(context).local() == old(context).local(),
            final(context).owned() == (if first {
                seq![Task { id: old(self).id() }] + old(context).owned()
            } else {
                old(context).owned()
            }),
    {
        let mut cell = self.cell.take().unwrap();
        let first = !cell.core.bound;
        if first {
            context.bind(Task { id: self.id });
            cell.core.bound = true;
        }
        self.cell = Some(cell);
        first
    }

    /// Releases a completed task from the scheduler whose context is
    /// `context`: the task is taken from the scheduler's owned tasks, if it
    /// is among them, and the scheduler's reference is dropped, which
    /// deallocates the cell if the join handle has been dropped before.
    pub fn release(&mut self, context: &mut Context)
        requires
            old(self).wf(),
            old(self).sched_held(),
            old(self).flags().complete,
        ensures
            final(self).is_freed() ==> old(self).flags().complete && !old(self).join_held(),
            final(self).is_freed() <==> old(self).flags().ref_count == 1,
            !final(self).is_freed() ==> final(self).flags().ref_count == old(self).flags().ref_count - 1,
            final(self).ref_state() == ref_apply(
                old(self).ref_state(),
                RefEvent::SchedulerReleased,
            ),
            final(self).wf(),
            final(self).id() == old(self).id(),
            !final(self).sched_held(),
            final(self).join_held() == old(self).join_held(),
            final(self).is_freed() <==> !old(self).join_held(),
            !final(self).is_freed() ==> {
                &&& final(self).join_waker() == old(self).join_waker()
                &&& final(self).flags() == (Flags { ref_count: 1, ..old(self).flags() })
                &&& final(self).stage() == old(self).stage()
                &&& final(self).is_bound() == old(self).is_bound()
            },
            final(context).local() == old(context).local(),
            final(context).owned() == (if Context::position(old(context).owned(), old(self).id())
                < old(context).owned().len() {
                old(context).owned().remove(
                    Context::position(old(context).owned(), old(self).id()),
                )
            } else {
                old(context).owned()
            }),
    {
        let _ = context.release(self.id);
        self.drop_reference();
    }

    /// The owned tasks of a scheduler after one execution of the task `id`:
    /// the task has been put in front if it was not bound before, and has
    /// been taken out again if the execution finished it.
    pub open spec fn owned_after_poll(
        owned: Seq<Task>,
        id: usize,
        was_bound: bool,
        finished: bool,
    ) -> Seq<Task> {
        let bound = if was_bound {
            owned
        } else {
            seq![Task { id }] + owned
        };
        if finished && Context::position(bound, id) < bound.len() {
            bound.remove(Context::position(bound, id))
        } else {
            bound
        }
    }

    /// Accounts for one execution of the task by the scheduler whose
    /// context is `context`. `outcome` is the outcome of the step of the
    /// computation, and `woken` tells whether the computation invoked its
    /// own wake handle during the step.
    ///
    /// The task is bound to the scheduler if this is its first execution.
    /// If the step finished the computation, the task completes and is
    /// released: it leaves the scheduler's owned tasks, the scheduler's
    /// reference is dropped, and the cell is deallocated if the join handle
    /// is gone. If the step did not finish and the computation woke itself,
    /// the task is queued again at the back of the local run queue. The
    /// join waker to invoke, if any, is returned.
    pub fn poll(
        &mut self,
        context: &mut Context,
        outcome: Poll<Result<T, JoinError>>,
        woken: bool,
    ) -> (wake: Option<Waker>)
        requires
            old(self).wf(),
            old(self).sched_held(),
            !old(self).flags().complete,
        ensures
            final(self).wf(),
            final(self).id() == old(self).id(),
            final(self).join_held() == old(self).join_held(),
            final(self).sched_held() == (outcome is Pending),
            final(self).is_freed() <==> outcome is Ready && !old(self).join_held(),
            wake == (if outcome is Ready && old(self).flags().join_interest && old(self).flags().join_waker {
                old(self).join_waker()
            } else {
                None
            }),
            final(context).owned() == Self::owned_after_poll(
                old(context).owned(),
                old(self).id(),
                old(self).is_bound(),
                outcome is Ready,
            ),
            final(context).local() == (if outcome is Pending && woken {
                old(context).local().push(Notified(Task { id: old(self).id() }))
            } else {
                old(context).local()
            }),
            !final(self).is_freed() ==> {
                &&& final(self).is_bound()
                &&& final(self).join_waker() == old(self).join_waker()
                &&& final(self).flags() == (match outcome {
                    Poll::Pending => Flags { notified: woken, ..old(self).flags() },
                    Poll::Ready(_) => Flags {
                        complete: true,
                        notified: false,
                        ref_count: 1,
                        ..old(self).flags()
                    },
                })
                &&& final(self).stage() == (match outcome {
                    Poll::Pending => Stage::Running,
                    Poll::Ready(out) => if old(self).flags().join_interest {
                        Stage::Finished(out)
                    } else {
                        Stage::Consumed
                    },
                })
            },
    {
        let _ = self.bind_scheduler(context);
        let finished = outcome.is_ready();
        let wake = self.run(outcome);
        if finished {
            self.release(context);
        } else if woken {
            self.wake_local(context);
        }
        wake
    }

    /// Invokes the task's own wake handle on the thread of the scheduler
    /// whose context is `context`: a task that is neither queued nor
    /// complete becomes queued at the back of the local run queue. Any other
    /// task stays as it is.
    pub fn wake_local(&mut self, context: &mut Context)
        requires
            old(self).wf(),
            !old(self).is_freed(),
        ensures
            final(self).wf(),
            final(self).id() == old(self).id(),
            !final(self).is_freed(),
            final(self).join_held() == old(self).join_held(),
            final(self).sched_held() == old(self).sched_held(),
            final(self).join_waker() == old(self).join_waker(),
            final(self).is_bound() == old(self).is_bound(),
            final(self).stage() == old(self).stage(),
            final(context).owned() == old(context).owned(),
            final(self).flags() == (if old(self).flags().complete {
                old(self).flags()
            } else {
                Flags { notified: true, ..old(self).flags() }
            }),
            final(context).local() == (if !old(self).flags().notified && !old(self).flags().complete {
                old(context).local().push(Notified(Task { id: old(self).id() }))
            } else {
                old(context).local()
            }),
    {
        if let Some(notified) = self.wake_by_ref() {
            context.schedule(notified);
        }
    }

    /// Invokes the task's own wake handle.
    ///
    /// A task that is neither queued nor complete becomes queued, and the
    /// notification is returned for the caller to push into a run queue. A
    /// task that is queued already or complete stays as it is.
    pub fn wake_by_ref(&mut self) -> (submit: Option<Notified>)
        requires
            old(self).wf(),
            !old(self).is_freed(),
        ensures
            final(self).wf(),
            final(self).id() == old(self).id(),
            !final(self).is_freed(),
            final(self).join_held() == old(self).join_held(),
            final(self).sched_held() == old(self).sched_held(),
            final(self).join_waker() == old(self).join_waker(),
            final(self).is_bound() == old(self).is_bound(),
            final(self).stage() == old(self).stage(),
            submit == (if !old(self).flags().notified && !old(self).flags().complete {
                Some(Notified(Task { id: old(self).id() }))
            } else {
                None
            }),
            final(self).flags() == (if submit is Some {
                Flags { notified: true, ..old(self).flags() }
            } else {
                old(self).flags()
            }),
    {
        let mut cell = self.cell.take().unwrap();
        let submit = cell.header.state.transition_to_notified();
        self.cell = Some(cell);
        if submit {
            Some(Notified(Task { id: self.id }))
        } else {
            None
        }
    }

    /// Accounts for one step of the task's computation, whose outcome is
    /// `outcome`.
    ///
    /// The task leaves the queued state. A step that did not finish changes
    /// nothing else. A step that finished marks the task complete and stores
    /// the output if the join handle is still interested, or discards it if
    /// not. The handle that the caller must invoke is returned: the join
    /// waker, if the join handle is interested and has stored one.
    pub fn run(&mut self, outcome: Poll<Result<T, JoinError>>) -> (wake: Option<Waker>)
        requires
            old(self).wf(),
            old(self).sched_held(),
            !old(self).flags().complete,
        ensures
            final(self).ref_state() == (if outcome is Ready {
                ref_apply(old(self).ref_state(), RefEvent::Completed)
            } else {
                old(self).ref_state()
            }),
            final(self).wf(),
            final(self).id() == old(self).id(),
            !final(self).is_freed(),
            final(self).join_held() == old(self).join_held(),
            final(self).sched_held(),
            final(self).join_waker() == old(self).join_waker(),
            final(self).is_bound() == old(self).is_bound(),
            match outcome {
                Poll::Pending => {
                    &&& wake is None
                    &&& final(self).flags() == (Flags { notified: false, ..old(self).flags() })
                    &&& final(self).stage() is Running
                },
                Poll::Ready(out) => {
                    &&& final(self).flags() == (Flags {
                        complete: true,
                        notified: false,
                        ..old(self).flags()
                    })
                    &&& final(self).stage() == (if old(self).flags().join_interest {
                        Stage::Finished(out)
                    } else {
                        Stage::Consumed
                    })
                    &&& wake == (if old(self).flags().join_interest && old(self).flags().join_waker {
                        old(self).join_waker()
                    } else {
                        None
                    })
                },
            },
    {
        let mut cell = self.cell.take().unwrap();
        let _ = cell.header.state.transition_to_running();
        let mut wake: Option<Waker> = None;
        match outcome {
            Poll::Pending => {},
            Poll::Ready(out) => {
                let snapshot = cell.header.state.transition_to_complete();
                if snapshot.is_join_interested() {
                    cell.core.store_output(out);
                    if snapshot.has_join_waker() {
                        wake = cell.trailer.waker;
                    }
                } else {
                    cell.core.drop_future_or_output();
                }
            },
        }
        self.cell = Some(cell);
        wake
    }

    /// Cancels a task that has not completed, on behalf of the scheduler.
    ///
    /// The computation is discarded and the task completes as cancelled. If
    /// the join handle is still interested, it will read
    /// `JoinError::Cancelled`; its waker, if it has stored one, is returned
    /// for the caller to invoke.
    pub fn shutdown(&mut self) -> (wake: Option<Waker>)
        requires
            old(self).wf(),
            old(self).sched_held(),
            !old(self).flags().complete,
        ensures
            final(self).ref_state() == ref_apply(old(self).ref_state(), RefEvent::Completed),
            final(self).wf(),
            final(self).id() == old(self).id(),
            !final(self).is_freed(),
            final(self).join_held() == old(self).join_held(),
            final(self).sched_held(),
            final(self).join_waker() == old(self).join_waker(),
            final(self).is_bound() == old(self).is_bound(),
            final(self).flags() == (Flags { complete: true, cancelled: true, ..old(self).flags() }),
            final(self).stage() == (if old(self).flags().join_interest {
                Stage::<T>::Finished(Err(JoinError::Cancelled))
            } else {
                Stage::<T>::Consumed
            }),
            wake == (if old(self).flags().join_interest && old(self).flags().join_waker {
                old(self).join_waker()
            } else {
                None
            }),
    {
        let mut cell = self.cell.take().unwrap();
        let snapshot = cell.header.state.transition_to_cancelled();
        let mut wake: Option<Waker> = None;
        if snapshot.is_join_interested() {
            cell.core.store_output(Err(JoinError::Cancelled));
            if snapshot.has_join_waker() {
                wake = cell.trailer.waker;
            }
        } else {
            cell.core.drop_future_or_output();
        }
        self.cell = Some(cell);
        wake
    }

    /// Reads the task output into `dst`, on behalf of the join handle.
    ///
    /// If the task is complete, `dst` receives the output, which is thereby
    /// consumed: the output of a task is read once, and a task whose output
    /// has been read admits no further read. If the task is not complete,
    /// `dst` is left alone and `waker` is stored, replacing any handle
    /// stored before, to be invoked on completion.
    pub fn try_read_output(&mut self, dst: &mut Poll<Result<T, JoinError>>, waker: &Waker)
        requires
            old(self).wf(),
            old(self).output_readable(),
        ensures
            final(self).wf(),
            final(self).id() == old(self).id(),
            !final(self).is_freed(),
            final(self).join_held(),
            final(self).sched_held() == old(self).sched_held(),
            final(self).is_bound() == old(self).is_bound(),
            old(self).flags().complete ==> {
                &&& *final(dst) == Poll::Ready(old(self).stage()->Finished_0)
                &&& final(self).stage() is Consumed
                &&& !final(self).output_readable()
                &&& final(self).flags() == old(self).flags()
                &&& final(self).join_waker() == old(self).join_waker()
            },
            !old(self).flags().complete ==> {
                &&& *final(dst) == *old(dst)
                &&& final(self).stage() is Running
                &&& final(self).flags() == (Flags { join_waker: true, ..old(self).flags() })
                &&& final(self).join_waker() == Some(*waker)
            },
    {
        // Load a snapshot of the current task state
        let snapshot = self.snapshot();

        if !snapshot.is_complete() {
            // The waker must be stored in the task struct.
            let res = if snapshot.has_join_waker() {
                // There already is a waker stored in the struct. If it matches
                // the provided waker, then there is no further work to do.
                // Otherwise, the waker must be swapped.
                if self.stored_waker_will_wake(waker) {
                    return ;
                }
                // Unset the `JOIN_WAKER` to gain mutable access to the `waker`
                // field then update the field with the new join waker.
                match self.unset_waker() {
                    Ok(snapshot) => self.set_join_waker(*waker, snapshot),
                    Err(snapshot) => Err(snapshot),
                }
            } else {
                self.set_join_waker(*waker, snapshot)
            };

            match res {
                Ok(_) => return ,
                Err(_) => {},
            }
        }
        let mut cell = self.cell.take().unwrap();
        *dst = Poll::Ready(cell.core.take_output());
        self.cell = Some(cell);
    }

    /// Whether the stored join waker wakes the same party as `waker`.
    fn stored_waker_will_wake(&self, waker: &Waker) -> (b: bool)
        requires
            !self.is_freed(),
            self.join_waker() is Some,
        ensures
            b == (self.join_waker() == Some(*waker)),
    {
        match &self.cell {
            Some(cell) => match &cell.trailer.waker {
                Some(stored) => stored.will_wake(waker),
                None => false,
            },
            None => false,
        }
    }

    /// Clears `JOIN_WAKER` in the lifecycle word.
    fn unset_waker(&mut self) -> (res: Result<Snapshot, Snapshot>)
        requires
            !old(self).is_freed(),
            old(self).flags().join_interest,
            old(self).flags().join_waker,
        ensures
            !final(self).is_freed(),
            final(self).id() == old(self).id(),
            final(self).join_held() == old(self).join_held(),
            final(self).sched_held() == old(self).sched_held(),
            final(self).stage() == old(self).stage(),
            final(self).join_waker() == old(self).join_waker(),
            final(self).is_bound() == old(self).is_bound(),
            res is Err <==> old(self).flags().complete,
            res is Err ==> res->Err_0@ == old(self).flags() && final(self).flags() == old(self).flags(),
            res is Ok ==> res->Ok_0@ == final(self).flags() && final(self).flags() == (Flags {
                join_waker: false,
                ..old(self).flags()
            }),
    {
        let mut cell = self.cell.take().unwrap();
        let res = cell.header.state.unset_waker();
        self.cell = Some(cell);
        res
    }

    /// Stores `waker` in the trailer and sets `JOIN_WAKER`. `snapshot` is
    /// the word as the caller last saw it; it may be stale. If the task has
    /// completed in the meantime, the waker is cleared again and the word as
    /// it stands is handed back as the error.
    pub fn set_join_waker(&mut self, waker: Waker, snapshot: Snapshot) -> (res: Result<
        Snapshot,
        Snapshot,
    >)
        requires
            !old(self).is_freed(),
            snapshot@.join_interest,
            !snapshot@.join_waker,
            old(self).flags().join_interest,
            !old(self).flags().join_waker,
        ensures
            !final(self).is_freed(),
            final(self).id() == old(self).id(),
            final(self).join_held() == old(self).join_held(),
            final(self).sched_held() == old(self).sched_held(),
            final(self).stage() == old(self).stage(),
            final(self).is_bound() == old(self).is_bound(),
            res is Err <==> old(self).flags().complete,
            res is Err ==> res->Err_0@ == old(self).flags() && final(self).flags() == old(self).flags() && final(self).join_waker() is None,
            res is Ok ==> res->Ok_0@ == final(self).flags() && final(self).flags() == (Flags {
                join_waker: true,
                ..old(self).flags()
            }) && final(self).join_waker() == Some(waker),
    {
        let mut cell = self.cell.take().unwrap();
        cell.trailer.waker = Some(waker);

        // Update the `JoinWaker` state accordingly
        let res = cell.header.state.set_join_waker();

        // If the state could not be updated, then clear the join waker
        if res.is_err() {
            cell.trailer.waker = None;
        }
        self.cell = Some(cell);
        res
    }

    /// Drops the join handle.
    ///
    /// If the task has completed, the output is discarded here, so that it
    /// does not outlive the handle; if not, `JOIN_INTEREST` is cleared. Then
    /// the handle's reference is released, and the cell is deallocated if the
    /// scheduler has let go before.
    pub fn drop_join_handle_slow(&mut self)
        requires
            old(self).wf(),
            old(self).join_held(),
        ensures
            final(self).is_freed() <==> old(self).flags().ref_count == 1,
            !final(self).is_freed() ==> final(self).flags().ref_count == old(self).flags().ref_count - 1,
            final(self).ref_state() == ref_apply(
                old(self).ref_state(),
                RefEvent::JoinHandleDropped,
            ),
            final(self).wf(),
            final(self).id() == old(self).id(),
            !final(self).join_held(),
            final(self).sched_held() == old(self).sched_held(),
            final(self).is_freed() <==> !old(self).sched_held(),
            final(self).is_freed() ==> old(self).flags().complete,
            !final(self).is_freed() ==> {
                &&& final(self).join_waker() == old(self).join_waker()
                &&& final(self).is_bound() == old(self).is_bound()
                &&& final(self).flags() == (Flags {
                    join_interest: old(self).flags().complete,
                    ref_count: 1,
                    ..old(self).flags()
                })
                &&& final(self).stage() == (if old(self).flags().complete {
                    Stage::Consumed
                } else {
                    old(self).stage()
                })
            },
    {
        let mut cell = self.cell.take().unwrap();
        // Try to unset `JOIN_INTEREST`. This must be done as a first step in
        // case the task has completed.
        if cell.header.state.unset_join_interested().is_err() {
            // It is our responsibility to drop the output.
            cell.core.drop_future_or_output();
        }
        // Drop the join handle's reference, possibly deallocating the task
        let last = cell.header.state.ref_dec();
        self.cell = Some(cell);
        self.join_ref = false;
        if last {
            self.dealloc();
        }
    }

    /// Drops the join handle, by one exchange on the lifecycle word where the
    /// task has not been touched since it was created, and by
    /// `drop_join_handle_slow` otherwise. Both leave the task in the same
    /// state.
    pub fn drop_join_handle(&mut self)
        requires
            old(self).wf(),
            old(self).join_held(),
        ensures
            final(self).is_freed() <==> old(self).flags().ref_count == 1,
            !final(self).is_freed() ==> final(self).flags().ref_count == old(self).flags().ref_count - 1,
            final(self).ref_state() == ref_apply(
                old(self).ref_state(),
                RefEvent::JoinHandleDropped,
            ),
            final(self).wf(),
            final(self).id() == old(self).id(),
            !final(self).join_held(),
            final(self).sched_held() == old(self).sched_held(),
            final(self).is_freed() <==> !old(self).sched_held(),
            final(self).is_freed() ==> old(self).flags().complete,
            !final(self).is_freed() ==> {
                &&& final(self).join_waker() == old(self).join_waker()
                &&& final(self).is_bound() == old(self).is_bound()
                &&& final(self).flags() == (Flags {
                    join_interest: old(self).flags().complete,
                    ref_count: 1,
                    ..old(self).flags()
                })
                &&& final(self).stage() == (if old(self).flags().complete {
                    Stage::Consumed
                } else {
                    old(self).stage()
                })
            },
    {
        let mut cell = self.cell.take().unwrap();
        let fast = cell.header.state.drop_join_handle_fast();
        self.cell = Some(cell);
        if fast.is_ok() {
            self.join_ref = false;
        } else {
            self.drop_join_handle_slow();
        }
    }

    /// Releases the scheduler's reference to a completed task, and
    /// deallocates the cell if the join handle has been dropped before.
    pub fn drop_reference(&mut self)
        requires
            old(self).wf(),
            old(self).sched_held(),
            old(self).flags().complete,
        ensures
            final(self).is_freed() ==> old(self).flags().complete && !old(self).join_held(),
            final(self).is_freed() <==> old(self).flags().ref_count == 1,
            !final(self).is_freed() ==> final(self).flags().ref_count == old(self).flags().ref_count - 1,
            final(self).ref_state() == ref_apply(
                old(self).ref_state(),
                RefEvent::SchedulerReleased,
            ),
            final(self).wf(),
            final(self).id() == old(self).id(),
            !final(self).sched_held(),
            final(self).join_held() == old(self).join_held(),
            final(self).is_freed() <==> !old(self).join_held(),
            !final(self).is_freed() ==> {
                &&& final(self).join_waker() == old(self).join_waker()
                &&& final(self).is_bound() == old(self).is_bound()
                &&& final(self).flags() == (Flags { ref_count: 1, ..old(self).flags() })
                &&& final(self).stage() == old(self).stage()
            },
    {
        let mut cell = self.cell.take().unwrap();
        let last = cell.header.state.ref_dec();
        self.cell = Some(cell);
        self.sched_ref = false;
        if last {
            self.dealloc();
        }
    }
}

/// The output of a task is read at most once: once a read has left the
/// stage of a complete task consumed, the task admits no further read.
pub proof fn lemma_output_read_once<T>(h: Harness<T>)
    requires
        h.wf(),
        !h.is_freed(),
        h.flags().complete,
        h.stage() is Consumed,
    ensures
        !h.output_readable(),
{
}

/// A task cell is deallocated exactly when both the scheduler's reference and
/// the join handle's reference have been released, and the scheduler's
/// reference is released only once the task is complete.
pub proof fn lemma_freed_iff_released<T>(h: Harness<T>)
    requires
        h.wf(),
    ensures
        h.is_freed() <==> !h.join_held() && !h.sched_held(),
        !h.is_freed() ==> h.flags().ref_count == h.held(),
        !h.is_freed() && !h.sched_held() ==> h.flags().complete,
{
}

} // verus!
