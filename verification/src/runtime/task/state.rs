//! The lifecycle word of a task.
//!
//! One machine word packs the lifecycle flags in its six low bits and the
//! reference count in the bits above them. Every transition reads the word,
//! decides, and writes it back in one step, so that a transition which must
//! not race with completion tests the `COMPLETE` flag inside that same step.

use vstd::prelude::*;

verus! {

/// The task is being polled.
pub const RUNNING: usize = 0b0001;

/// The task is complete. Once set, this flag is never cleared.
pub const COMPLETE: usize = 0b0010;

/// The two lifecycle bits.
pub const LIFECYCLE_MASK: usize = 0b11;

/// The task has been pushed into a run queue.
pub const NOTIFIED: usize = 0b100;

/// The join handle is still around.
pub const JOIN_INTEREST: usize = 0b1_000;

/// A join handle waker has been stored in the trailer.
pub const JOIN_WAKER: usize = 0b10_000;

/// The task has been forcibly cancelled.
pub const CANCELLED: usize = 0b100_000;

/// All flag bits.
pub const STATE_MASK: usize = 0b111_111;

/// Number of positions the reference count is shifted by.
pub const REF_COUNT_SHIFT: usize = 6;

/// One reference.
pub const REF_ONE: usize = 0b1_000_000;

/// The word a task starts with: one reference for the scheduler, one for the
/// join handle, `JOIN_INTEREST` and `NOTIFIED` set.
pub const INITIAL_STATE: usize = 140;

/// What a lifecycle word means.
pub struct Flags {
    pub running: bool,
    pub complete: bool,
    pub notified: bool,
    pub join_interest: bool,
    pub join_waker: bool,
    pub cancelled: bool,
    pub ref_count: nat,
}

/// The lifecycle states of a task, as the flags combine to them.
#[derive(Debug, Clone, Copy, PartialEq, Eq, Structural)]
pub enum Lifecycle {
    /// The computation is live and the task is not queued.
    Running,
    /// The computation is live and the task is queued for execution.
    Notified,
    /// The computation has completed.
    Complete,
    /// The task was cancelled and has completed thereby.
    CompleteCancelled,
}

/// The lifecycle state that the flags combine to.
pub open spec fn lifecycle_of(flags: Flags) -> Lifecycle {
    if flags.complete {
        if flags.cancelled {
            Lifecycle::CompleteCancelled
        } else {
            Lifecycle::Complete
        }
    } else if flags.notified {
        Lifecycle::Notified
    } else {
        Lifecycle::Running
    }
}

/// Decodes a lifecycle word.
pub open spec fn decode(v: usize) -> Flags {
    Flags {
        running: v % 2 == 1,
        complete: (v / 2) % 2 == 1,
        notified: (v / 4) % 2 == 1,
        join_interest: (v / 8) % 2 == 1,
        join_waker: (v / 16) % 2 == 1,
        cancelled: (v / 32) % 2 == 1,
        ref_count: (v / 64) as nat,
    }
}

/// The flags of a freshly created task.
pub open spec fn initial_flags() -> Flags {
    Flags {
        running: false,
        complete: false,
        notified: true,
        join_interest: true,
        join_waker: false,
        cancelled: false,
        ref_count: 2,
    }
}

/// Two words with the same meaning are the same word.
pub proof fn lemma_decode_injective(a: usize, b: usize)
    requires
        decode(a) == decode(b),
    ensures
        a == b,
{
    let x = a;
    let y = b;
    assert(x / 64 == y / 64 && y % 2 == x % 2 && (y / 2) % 2 == (x / 2) % 2 && (y / 4) % 2 == (x / 4) % 2 && (y / 8) % 2 == (x / 8) % 2 && (y / 16) % 2 == (x / 16) % 2 && (y / 32) % 2 == (x / 32) % 2 ==> x == y) by (bit_vector);
}

proof fn lemma_test_bits(x: usize)
    by (bit_vector)
    ensures
        (x & 2 == 2) == ((x / 2) % 2 == 1),
        (x & 4 == 4) == ((x / 4) % 2 == 1),
        (x & 8 == 8) == ((x / 8) % 2 == 1),
        (x & 16 == 16) == ((x / 16) % 2 == 1),
        (x & 32 == 32) == ((x / 32) % 2 == 1),
        (x & !63usize) >> 6 == x / 64,
{
}

proof fn lemma_clear_bit_4(x: usize, y: usize)
    by (bit_vector)
    requires
        y == x & !4usize,
    ensures
        y % 2 == x % 2,
        (y / 2) % 2 == (x / 2) % 2,
        (y / 8) % 2 == (x / 8) % 2,
        (y / 16) % 2 == (x / 16) % 2,
        (y / 32) % 2 == (x / 32) % 2,
        (y / 4) % 2 == 0,
        y / 64 == x / 64,
{
}

proof fn lemma_clear_bit_8(x: usize, y: usize)
    by (bit_vector)
    requires
        y == x & !8usize,
    ensures
        y % 2 == x % 2,
        (y / 2) % 2 == (x / 2) % 2,
        (y / 4) % 2 == (x / 4) % 2,
        (y / 16) % 2 == (x / 16) % 2,
        (y / 32) % 2 == (x / 32) % 2,
        (y / 8) % 2 == 0,
        y / 64 == x / 64,
{
}

proof fn lemma_clear_bit_16(x: usize, y: usize)
    by (bit_vector)
    requires
        y == x & !16usize,
    ensures
        y % 2 == x % 2,
        (y / 2) % 2 == (x / 2) % 2,
        (y / 4) % 2 == (x / 4) % 2,
        (y / 8) % 2 == (x / 8) % 2,
        (y / 32) % 2 == (x / 32) % 2,
        (y / 16) % 2 == 0,
        y / 64 == x / 64,
{
}

proof fn lemma_set_bit_2(x: usize, y: usize)
    by (bit_vector)
    requires
        y == x | 2usize,
    ensures
        y % 2 == x % 2,
        (y / 4) % 2 == (x / 4) % 2,
        (y / 8) % 2 == (x / 8) % 2,
        (y / 16) % 2 == (x / 16) % 2,
        (y / 32) % 2 == (x / 32) % 2,
        (y / 2) % 2 == 1,
        y / 64 == x / 64,
{
}

proof fn lemma_set_bit_4(x: usize, y: usize)
    by (bit_vector)
    requires
        y == x | 4usize,
    ensures
        y % 2 == x % 2,
        (y / 2) % 2 == (x / 2) % 2,
        (y / 8) % 2 == (x / 8) % 2,
        (y / 16) % 2 == (x / 16) % 2,
        (y / 32) % 2 == (x / 32) % 2,
        (y / 4) % 2 == 1,
        y / 64 == x / 64,
{
}

proof fn lemma_set_bit_16(x: usize, y: usize)
    by (bit_vector)
    requires
        y == x | 16usize,
    ensures
        y % 2 == x % 2,
        (y / 2) % 2 == (x / 2) % 2,
        (y / 4) % 2 == (x / 4) % 2,
        (y / 8) % 2 == (x / 8) % 2,
        (y / 32) % 2 == (x / 32) % 2,
        (y / 16) % 2 == 1,
        y / 64 == x / 64,
{
}

proof fn lemma_set_bit_32(x: usize, y: usize)
    by (bit_vector)
    requires
        y == x | 32usize,
    ensures
        y % 2 == x % 2,
        (y / 2) % 2 == (x / 2) % 2,
        (y / 4) % 2 == (x / 4) % 2,
        (y / 8) % 2 == (x / 8) % 2,
        (y / 16) % 2 == (x / 16) % 2,
        (y / 32) % 2 == 1,
        y / 64 == x / 64,
{
}

proof fn lemma_ref_step(x: usize, y: usize)
    by (bit_vector)
    requires
        x >= 64,
        y == (x - 64) as usize,
    ensures
        y % 2 == x % 2,
        (y / 2) % 2 == (x / 2) % 2,
        (y / 4) % 2 == (x / 4) % 2,
        (y / 8) % 2 == (x / 8) % 2,
        (y / 16) % 2 == (x / 16) % 2,
        (y / 32) % 2 == (x / 32) % 2,
        y / 64 == x / 64 - 1,
{
}

/// A copy of the lifecycle word as it was when it was read.
#[derive(Copy, Clone)]
pub struct Snapshot(pub usize);

impl Snapshot {
    /// The meaning of the word.
    pub open spec fn view(self) -> Flags {
        decode(self.0)
    }

    /// Returns `true` if the task's computation has completed.
    pub fn is_complete(self) -> (b: bool)
        ensures
            b == self@.complete,
    {
        proof {
            lemma_test_bits(self.0);
        }
        self.0 & COMPLETE == COMPLETE
    }

    /// The lifecycle state of the task.
    pub fn lifecycle(self) -> (l: Lifecycle)
        ensures
            l == lifecycle_of(self@),
    {
        if self.is_complete() {
            if self.is_cancelled() {
                Lifecycle::CompleteCancelled
            } else {
                Lifecycle::Complete
            }
        } else if self.is_notified() {
            Lifecycle::Notified
        } else {
            Lifecycle::Running
        }
    }

    /// Returns `true` if the task sits in a run queue.
    pub fn is_notified(self) -> (b: bool)
        ensures
            b == self@.notified,
    {
        proof {
            lemma_test_bits(self.0);
        }
        self.0 & NOTIFIED == NOTIFIED
    }

    /// Returns `true` if the task has been cancelled.
    pub fn is_cancelled(self) -> (b: bool)
        ensures
            b == self@.cancelled,
    {
        proof {
            lemma_test_bits(self.0);
        }
        self.0 & CANCELLED == CANCELLED
    }

    /// Returns `true` if the join handle is still around.
    pub fn is_join_interested(self) -> (b: bool)
        ensures
            b == self@.join_interest,
    {
        proof {
            lemma_test_bits(self.0);
        }
        self.0 & JOIN_INTEREST == JOIN_INTEREST
    }

    /// Clears `JOIN_INTEREST` and leaves everything else as it was.
    pub fn unset_join_interested(&mut self)
        ensures
            final(self)@ == (Flags { join_interest: false, ..old(self)@ }),
    {
        proof {
            lemma_clear_bit_8(self.0, self.0 & !8usize);
        }
        self.0 = self.0 & !JOIN_INTEREST;
    }

    /// Returns `true` if a join waker is stored.
    pub fn has_join_waker(self) -> (b: bool)
        ensures
            b == self@.join_waker,
    {
        proof {
            lemma_test_bits(self.0);
        }
        self.0 & JOIN_WAKER == JOIN_WAKER
    }

    /// Sets `JOIN_WAKER` and leaves everything else as it was.
    pub fn set_join_waker(&mut self)
        ensures
            final(self)@ == (Flags { join_waker: true, ..old(self)@ }),
    {
        proof {
            lemma_set_bit_16(self.0, self.0 | 16usize);
        }
        self.0 = self.0 | JOIN_WAKER;
    }

    /// Clears `JOIN_WAKER` and leaves everything else as it was.
    pub fn unset_join_waker(&mut self)
        ensures
            final(self)@ == (Flags { join_waker: false, ..old(self)@ }),
    {
        proof {
            lemma_clear_bit_16(self.0, self.0 & !16usize);
        }
        self.0 = self.0 & !JOIN_WAKER;
    }

    /// Sets `COMPLETE` and leaves everything else as it was.
    pub fn set_complete(&mut self)
        ensures
            final(self)@ == (Flags { complete: true, ..old(self)@ }),
    {
        proof {
            lemma_set_bit_2(self.0, self.0 | 2usize);
        }
        self.0 = self.0 | COMPLETE;
    }

    /// Sets `CANCELLED` and leaves everything else as it was.
    pub fn set_cancelled(&mut self)
        ensures
            final(self)@ == (Flags { cancelled: true, ..old(self)@ }),
    {
        proof {
            lemma_set_bit_32(self.0, self.0 | 32usize);
        }
        self.0 = self.0 | CANCELLED;
    }

    /// Sets `NOTIFIED` and leaves everything else as it was.
    pub fn set_notified(&mut self)
        ensures
            final(self)@ == (Flags { notified: true, ..old(self)@ }),
    {
        proof {
            lemma_set_bit_4(self.0, self.0 | 4usize);
        }
        self.0 = self.0 | NOTIFIED;
    }

    /// Clears `NOTIFIED` and leaves everything else as it was.
    pub fn unset_notified(&mut self)
        ensures
            final(self)@ == (Flags { notified: false, ..old(self)@ }),
    {
        proof {
            lemma_clear_bit_4(self.0, self.0 & !4usize);
        }
        self.0 = self.0 & !NOTIFIED;
    }

    /// The number of references to the task.
    pub fn ref_count(self) -> (n: usize)
        ensures
            n == self@.ref_count,
    {
        proof {
            lemma_test_bits(self.0);
        }
        (self.0 & !STATE_MASK) >> REF_COUNT_SHIFT
    }
}

/// The lifecycle word itself. Every transition is one read-modify-write of
/// the word, which puts all transitions of one task in a single order.
pub struct State {
    val: usize,
}

impl State {
    /// The word as it stands.
    pub closed spec fn word(&self) -> usize {
        self.val
    }

    /// The meaning of the word as it stands.
    pub open spec fn view(&self) -> Flags {
        decode(self.word())
    }

    /// Returns a task's initial state: referenced by the scheduler and by the
    /// join handle, notified, with join interest.
    pub fn new() -> (s: State)
        ensures
            s@ == initial_flags(),
            s.word() == INITIAL_STATE,
    {
        State { val: INITIAL_STATE }
    }

    /// Loads the current word.
    pub fn load(&self) -> (s: Snapshot)
        ensures
            s.0 == self.word(),
            s@ == self@,
    {
        Snapshot(self.val)
    }

    /// Stores `new` if the word equals `current`; hands back the word found.
    fn compare_exchange(&mut self, current: usize, new: usize) -> (res: Result<usize, usize>)
        ensures
            old(self).word() == current ==> res == Ok::<usize, usize>(current) && final(self).word() == new,
            old(self).word() != current ==> res == Err::<usize, usize>(old(self).word())
                && final(self).word() == old(self).word(),
    {
        if self.val == current {
            self.val = new;
            Ok(current)
        } else {
            Err(self.val)
        }
    }

    /// Optimistically drops the join handle of a task that has not been
    /// touched since it was created: one exchange from the initial word to the
    /// word with one reference less and no join interest.
    pub fn drop_join_handle_fast(&mut self) -> (res: Result<(), ()>)
        ensures
            res is Ok <==> old(self)@ == initial_flags(),
            res is Ok ==> final(self)@ == (Flags {
                join_interest: false,
                ref_count: 1,
                ..initial_flags()
            }),
            res is Err ==> final(self).word() == old(self).word(),
    {
        proof {
            if self@ == initial_flags() {
                lemma_decode_injective(self.val, INITIAL_STATE);
            }
            lemma_ref_step(INITIAL_STATE, 76usize);
            lemma_clear_bit_8(76usize, 76usize & !8usize);
        }
        match self.compare_exchange(INITIAL_STATE, (INITIAL_STATE - REF_ONE) & !JOIN_INTEREST) {
            Ok(_) => Ok(()),
            Err(_) => Err(()),
        }
    }

    /// Tries to clear `JOIN_INTEREST`.
    ///
    /// Returns `Ok` with the new word if the task had not completed, `Err`
    /// with the unchanged word if it had: the caller must then dispose of the
    /// output itself.
    pub fn unset_join_interested(&mut self) -> (res: Result<Snapshot, Snapshot>)
        requires
            old(self)@.join_interest,
        ensures
            res is Err <==> old(self)@.complete,
            res is Err ==> res->Err_0.0 == old(self).word() && final(self).word() == old(self).word(),
            res is Ok ==> res->Ok_0.0 == final(self).word() && final(self)@ == (Flags {
                join_interest: false,
                ..old(self)@
            }),
    {
        let f = |curr: Snapshot| -> (r: Option<Snapshot>)
            requires
                curr@.join_interest,
            ensures
                r is None <==> curr@.complete,
                r is Some ==> r->Some_0@ == (Flags { join_interest: false, ..curr@ }),
            {
                if curr.is_complete() {
                    None
                } else {
                    let mut next = curr;
                    next.unset_join_interested();
                    Some(next)
                }
            };
        self.fetch_update(f)
    }

    /// Tries to set `JOIN_WAKER`.
    ///
    /// Returns `Ok` with the new word if the flag was set, `Err` with the
    /// unchanged word if the task had completed.
    pub fn set_join_waker(&mut self) -> (res: Result<Snapshot, Snapshot>)
        requires
            old(self)@.join_interest,
            !old(self)@.join_waker,
        ensures
            res is Err <==> old(self)@.complete,
            res is Err ==> res->Err_0.0 == old(self).word() && final(self).word() == old(self).word(),
            res is Ok ==> res->Ok_0.0 == final(self).word() && final(self)@ == (Flags {
                join_waker: true,
                ..old(self)@
            }),
    {
        let f = |curr: Snapshot| -> (r: Option<Snapshot>)
            requires
                curr@.join_interest,
                !curr@.join_waker,
            ensures
                r is None <==> curr@.complete,
                r is Some ==> r->Some_0@ == (Flags { join_waker: true, ..curr@ }),
            {
                if curr.is_complete() {
                    None
                } else {
                    let mut next = curr;
                    next.set_join_waker();
                    Some(next)
                }
            };
        self.fetch_update(f)
    }

    /// Tries to clear `JOIN_WAKER`.
    ///
    /// Returns `Ok` with the new word if the flag was cleared, `Err` with the
    /// unchanged word if the task had completed.
    pub fn unset_waker(&mut self) -> (res: Result<Snapshot, Snapshot>)
        requires
            old(self)@.join_interest,
            old(self)@.join_waker,
        ensures
            res is Err <==> old(self)@.complete,
            res is Err ==> res->Err_0.0 == old(self).word() && final(self).word() == old(self).word(),
            res is Ok ==> res->Ok_0.0 == final(self).word() && final(self)@ == (Flags {
                join_waker: false,
                ..old(self)@
            }),
    {
        let f = |curr: Snapshot| -> (r: Option<Snapshot>)
            requires
                curr@.join_interest,
                curr@.join_waker,
            ensures
                r is None <==> curr@.complete,
                r is Some ==> r->Some_0@ == (Flags { join_waker: false, ..curr@ }),
            {
                if curr.is_complete() {
                    None
                } else {
                    let mut next = curr;
                    next.unset_join_waker();
                    Some(next)
                }
            };
        self.fetch_update(f)
    }

    /// Marks the task complete. The flag is set for good: no transition
    /// clears it.
    pub fn transition_to_complete(&mut self) -> (snapshot: Snapshot)
        ensures
            snapshot.0 == final(self).word(),
            final(self)@ == (Flags { complete: true, ..old(self)@ }),
    {
        let mut next = self.load();
        next.set_complete();
        self.val = next.0;
        next
    }

    /// Marks the task cancelled and complete at once.
    pub fn transition_to_cancelled(&mut self) -> (snapshot: Snapshot)
        ensures
            snapshot.0 == final(self).word(),
            final(self)@ == (Flags { complete: true, cancelled: true, ..old(self)@ }),
    {
        let mut next = self.load();
        next.set_cancelled();
        next.set_complete();
        self.val = next.0;
        next
    }

    /// Marks the task as queued for execution. Returns `true` if the caller
    /// must push it into a run queue: the task was neither queued already nor
    /// complete.
    pub fn transition_to_notified(&mut self) -> (submit: bool)
        ensures
            submit == (!old(self)@.notified && !old(self)@.complete),
            submit ==> final(self)@ == (Flags { notified: true, ..old(self)@ }),
            !submit ==> final(self).word() == old(self).word(),
    {
        let curr = self.load();
        if curr.is_notified() || curr.is_complete() {
            false
        } else {
            let mut next = curr;
            next.set_notified();
            self.val = next.0;
            true
        }
    }

    /// Takes the task out of the queued state as it starts to run.
    pub fn transition_to_running(&mut self) -> (snapshot: Snapshot)
        ensures
            snapshot.0 == final(self).word(),
            final(self)@ == (Flags { notified: false, ..old(self)@ }),
    {
        let mut next = self.load();
        next.unset_notified();
        self.val = next.0;
        next
    }

    /// Releases one reference. Returns `true` exactly when it was the last
    /// one: the caller must then deallocate the task.
    pub fn ref_dec(&mut self) -> (last: bool)
        requires
            old(self)@.ref_count >= 1,
        ensures
            last == (old(self)@.ref_count == 1),
            final(self)@ == (Flags {
                ref_count: (old(self)@.ref_count - 1) as nat,
                ..old(self)@
            }),
    {
        let prev = Snapshot(self.val);
        proof {
            lemma_ref_step(self.val, (self.val - 64) as usize);
        }
        self.val = self.val - REF_ONE;
        prev.ref_count() == 1
    }

    /// Applies `f` to the current word and stores what it returns. Where `f`
    /// declines, the word stays and is handed back as the error.
    pub fn fetch_update<F>(&mut self, f: F) -> (res: Result<Snapshot, Snapshot>) where
        F: Fn(Snapshot) -> Option<Snapshot>,
        requires
            call_requires(f, (Snapshot(old(self).word()),)),
        ensures
            match res {
                Ok(next) => call_ensures(f, (Snapshot(old(self).word()),), Some(next)) && final(self).word() == next.0,
                Err(curr) => curr.0 == old(self).word() && call_ensures(f, (curr,), None)
                    && final(self).word() == old(self).word(),
            },
    {
        let mut curr = self.load();
        loop
            invariant
                curr == Snapshot(old(self).word()),
                self.word() == old(self).word(),
                call_requires(f, (curr,)),
            decreases 0int,
        {
            let next = match f(curr) {
                Some(next) => next,
                None => return Err(curr),
            };
            let res = self.compare_exchange(curr.0, next.0);
            match res {
                Ok(_) => return Ok(next),
                Err(actual) => curr = Snapshot(actual),
            }
        }
    }
}

} // verus!
