//! The channel: the list of blocks, the count of senders, the count of
//! messages in flight, and the receiver's wake handle.

use crate::future::{Context, Poll, Waker};
use crate::sync::mpsc::block::Read;
use crate::sync::mpsc::error::TrySendError;
use crate::sync::mpsc::list;
use crate::sync::mpsc::list::MAX_POSITION;
use crate::sync::task::AtomicWaker;
use vstd::prelude::*;

verus! {

/// The capacity accounting of an unbounded channel: the number of messages
/// in flight, and whether the receive half has closed.
///
/// The word holds the closed flag in its lowest bit and the count above it.
pub struct Semaphore {
    val: usize,
}

proof fn lemma_semaphore_bits(x: usize)
    by (bit_vector)
    ensures
        x >> 1 == x / 2,
        (x & 1 == 1) == (x % 2 == 1),
        (x | 1) / 2 == x / 2,
        (x | 1) % 2 == 1,
{
}

impl Semaphore {
    /// The number of messages in flight.
    pub closed spec fn in_flight(&self) -> nat {
        (self.val / 2) as nat
    }

    /// Whether the receive half has closed.
    pub closed spec fn is_closed(&self) -> bool {
        self.val % 2 == 1
    }

    /// A semaphore with nothing in flight, not closed.
    pub fn new() -> (s: Semaphore)
        ensures
            s.in_flight() == 0,
            !s.is_closed(),
    {
        Semaphore { val: 0 }
    }

    /// Returns `true` if no message is in flight.
    pub fn is_idle(&self) -> (b: bool)
        ensures
            b == (self.in_flight() == 0),
    {
        proof {
            lemma_semaphore_bits(self.val);
        }
        self.val >> 1 == 0
    }

    /// A message was read: it is no longer in flight.
    pub fn add_permit(&mut self)
        requires
            old(self).in_flight() > 0,
        ensures
            final(self).in_flight() == old(self).in_flight() - 1,
            final(self).is_closed() == old(self).is_closed(),
    {
        self.val = self.val - 2;
    }

    /// Accounts for one more message in flight, unless the receive half has
    /// closed.
    pub fn try_acquire(&mut self) -> (res: Result<(), ()>)
        requires
            old(self).in_flight() < MAX_POSITION,
        ensures
            res is Err <==> old(self).is_closed(),
            res is Err ==> final(self).in_flight() == old(self).in_flight(),
            res is Ok ==> final(self).in_flight() == old(self).in_flight() + 1,
            final(self).is_closed() == old(self).is_closed(),
    {
        proof {
            lemma_semaphore_bits(self.val);
        }
        if self.val & 1 == 1 {
            return Err(());
        }
        self.val = self.val + 2;
        Ok(())
    }

    /// Records that the receive half has closed.
    pub fn close(&mut self)
        ensures
            final(self).is_closed(),
            final(self).in_flight() == old(self).in_flight(),
    {
        proof {
            lemma_semaphore_bits(self.val);
        }
        self.val = self.val | 1;
    }
}

/// What a channel is to its users. The messages in flight are the queue;
/// of the list's positions, the view keeps how many messages were sent and
/// how many were received.
pub struct ChanView<T> {
    /// The messages sent and not yet received, oldest first.
    pub queue: Seq<T>,
    /// The number of live senders.
    pub senders: nat,
    /// Whether the receive half has been closed.
    pub rx_closed: bool,
    /// The wake handle the receiver has registered.
    pub rx_waker: Option<Waker>,
    /// The number of messages sent so far.
    pub sent: nat,
    /// The number of messages received so far.
    pub received: nat,
}

/// The channel after a send of `value`: the value is appended and the
/// receiver's handle is taken out to be invoked, unless the receive half is
/// closed, in which case nothing changes.
pub open spec fn spec_send<T>(v: ChanView<T>, value: T) -> ChanView<T> {
    if v.rx_closed {
        v
    } else {
        ChanView { queue: v.queue.push(value), rx_waker: None, sent: v.sent + 1, ..v }
    }
}

/// The channel after a receive, and what the receive yields: the oldest
/// message if there is one; the end of the stream if there is none and
/// either no sender is left or the receive half is closed; otherwise
/// `Pending`, with `waker` registered.
pub open spec fn spec_recv<T>(v: ChanView<T>, waker: Waker) -> (ChanView<T>, Poll<Option<T>>) {
    if v.queue.len() > 0 {
        (
            ChanView { queue: v.queue.drop_first(), received: v.received + 1, ..v },
            Poll::Ready(Some(v.queue[0])),
        )
    } else if v.senders == 0 || v.rx_closed {
        (v, Poll::Ready(None))
    } else {
        (ChanView { rx_waker: Some(waker), ..v }, Poll::Pending)
    }
}

/// The channel after the messages `msgs` have been sent in order.
pub open spec fn spec_send_all<T>(v: ChanView<T>, msgs: Seq<T>) -> ChanView<T>
    decreases msgs.len(),
{
    if msgs.len() == 0 {
        v
    } else {
        spec_send(spec_send_all(v, msgs.drop_last()), msgs.last())
    }
}

/// What `n` receives in a row yield.
pub open spec fn spec_recv_all<T>(v: ChanView<T>, n: nat, waker: Waker) -> Seq<Poll<Option<T>>>
    decreases n,
{
    if n == 0 {
        Seq::empty()
    } else {
        seq![spec_recv(v, waker).1] + spec_recv_all(spec_recv(v, waker).0, (n - 1) as nat, waker)
    }
}

/// Sending to an open channel appends the messages to the queue in the
/// order in which they were sent.
pub proof fn lemma_send_all_appends<T>(v: ChanView<T>, msgs: Seq<T>)
    requires
        !v.rx_closed,
    ensures
        spec_send_all(v, msgs).queue == v.queue + msgs,
        spec_send_all(v, msgs).senders == v.senders,
        !spec_send_all(v, msgs).rx_closed,
    decreases msgs.len(),
{
    if msgs.len() > 0 {
        lemma_send_all_appends(v, msgs.drop_last());
        assert(v.queue + msgs =~= (v.queue + msgs.drop_last()).push(msgs.last()));
    } else {
        assert(v.queue + msgs =~= v.queue);
    }
}

/// Receives in a row yield the queued messages from the oldest on, one
/// each, and after them the end of the stream, as long as no sender is left
/// or the receive half is closed.
pub proof fn lemma_recv_all<T>(v: ChanView<T>, n: nat, waker: Waker)
    ensures
        spec_recv_all(v, n, waker).len() == n,
        forall|i: int|
            0 <= i < n && i < v.queue.len() ==> #[trigger] spec_recv_all(v, n, waker)[i]
                == Poll::Ready(Some(v.queue[i])),
        forall|i: int|
            v.queue.len() <= i < n && (v.senders == 0 || v.rx_closed) ==> #[trigger] spec_recv_all(
                v,
                n,
                waker,
            )[i] == Poll::<Option<T>>::Ready(None),
    decreases n,
{
    if n > 0 {
        let next = spec_recv(v, waker).0;
        lemma_recv_all(next, (n - 1) as nat, waker);
        let rest = spec_recv_all(next, (n - 1) as nat, waker);
        let all = spec_recv_all(v, n, waker);
        assert forall|i: int| 0 <= i < n && i < v.queue.len() implies #[trigger] all[i]
            == Poll::Ready(Some(v.queue[i])) by {
            if i > 0 {
                assert(all[i] == rest[i - 1]);
                assert(next.queue[i - 1] == v.queue[i]);
            }
        }
        assert forall|i: int|
            v.queue.len() <= i < n && (v.senders == 0 || v.rx_closed) implies #[trigger] all[i]
            == Poll::<Option<T>>::Ready(None) by {
            if i > 0 {
                assert(all[i] == rest[i - 1]);
            }
        }
    }
}

/// Messages come out in the order in which they went in: after any sequence
/// of sends to an empty open channel, by whichever senders, as many receives
/// yield exactly the messages sent, in the order in which the sends
/// completed. So the messages of each sender come out in the order in which
/// that sender sent them.
pub proof fn lemma_fifo<T>(v: ChanView<T>, msgs: Seq<T>, waker: Waker)
    requires
        !v.rx_closed,
        v.queue.len() == 0,
    ensures
        spec_recv_all(spec_send_all(v, msgs), msgs.len(), waker).len() == msgs.len(),
        forall|i: int|
            0 <= i < msgs.len() ==> #[trigger] spec_recv_all(
                spec_send_all(v, msgs),
                msgs.len(),
                waker,
            )[i] == Poll::Ready(Some(msgs[i])),
{
    lemma_send_all_appends(v, msgs);
    lemma_recv_all(spec_send_all(v, msgs), msgs.len(), waker);
    assert(v.queue + msgs =~= msgs);
}

/// Once every sender is gone, the receives yield all buffered messages in
/// order and then the end of the stream, and keep yielding the end of the
/// stream however often the receiver asks again.
pub proof fn lemma_drain_then_end<T>(v: ChanView<T>, n: nat, waker: Waker)
    requires
        v.senders == 0,
    ensures
        spec_recv_all(v, n, waker).len() == n,
        forall|i: int|
            0 <= i < n ==> #[trigger] spec_recv_all(v, n, waker)[i] == (if i < v.queue.len() {
                Poll::Ready(Some(v.queue[i]))
            } else {
                Poll::Ready(None)
            }),
{
    lemma_recv_all(v, n, waker);
}

/// The channel state, shared by the receiver and all senders.
pub struct Chan<T> {
    /// The push half of the list.
    tx: list::Tx<T>,
    /// The pop half of the list. Only the receiver uses it.
    rx: list::Rx,
    /// Coordinates access to the channel's capacity.
    semaphore: Semaphore,
    /// Receiver waker. Taken out when a value is pushed into the channel.
    rx_waker: AtomicWaker,
    /// `true` once the receive half has been closed.
    rx_closed: bool,
    /// The number of live senders.
    tx_count: usize,
}

/// Creates a channel with one sender.
pub fn channel<T>() -> (chan: Chan<T>)
    ensures
        chan.wf(),
        chan@ == (ChanView::<T> {
            queue: Seq::empty(),
            senders: 1,
            rx_closed: false,
            rx_waker: None,
            sent: 0,
            received: 0,
        }),
{
    let (tx, rx) = list::channel();
    proof {
        tx.lemma_positions(&rx);
    }
    Chan {
        tx,
        rx,
        semaphore: Semaphore::new(),
        rx_waker: AtomicWaker::new(),
        rx_closed: false,
        tx_count: 1,
    }
}

impl<T> Chan<T> {
    /// The channel as its users see it.
    pub closed spec fn view(&self) -> ChanView<T> {
        ChanView {
            queue: self.tx.queue(&self.rx),
            senders: self.tx_count as nat,
            rx_closed: self.rx_closed,
            rx_waker: self.rx_waker@,
            sent: self.tx.spec_tail_position() as nat,
            received: self.rx.spec_index() as nat,
        }
    }

    /// The invariant of the channel: the list is well formed, its send half
    /// is closed exactly when no sender is left, and the semaphore counts
    /// the queued messages and knows whether the receive half is closed.
    pub closed spec fn wf(&self) -> bool {
        &&& self.tx.wf(&self.rx)
        &&& self.tx.is_closed() == (self.tx_count == 0)
        &&& self.semaphore.in_flight() == self.tx.queue(&self.rx).len()
        &&& self.semaphore.is_closed() == self.rx_closed
        &&& self.tx.queue(&self.rx).len() <= self.tx.spec_tail_position() <= MAX_POSITION
        &&& self.rx.spec_index() + self.tx.queue(&self.rx).len() == self.tx.spec_tail_position()
    }

    /// The number of messages sent so far.
    pub fn sent(&self) -> (n: usize)
        ensures
            n == self@.sent,
    {
        self.tx.tail_position()
    }

    /// The number of drained blocks that wait behind the producers' block
    /// to be used again.
    pub closed spec fn spec_spare_blocks(&self) -> int {
        self.tx.spare_blocks()
    }

    /// The number of drained blocks that wait behind the producers' block
    /// to be used again. There are never more than three.
    pub fn spare_blocks(&self) -> (n: usize)
        requires
            self.wf(),
        ensures
            n == self.spec_spare_blocks(),
            n <= 3,
    {
        proof {
            self.tx.lemma_positions(&self.rx);
        }
        self.tx.spare_block_count()
    }

    /// The number of messages received so far.
    pub fn received(&self) -> (n: usize)
        ensures
            n == self@.received,
    {
        self.rx.index()
    }

    /// The number of live senders.
    pub fn senders(&self) -> (n: usize)
        ensures
            n == self@.senders,
    {
        self.tx_count
    }

    /// Sends `value`, unless the receive half is closed, in which case the
    /// value is handed back. On success, returns the receiver's wake handle
    /// if one was registered: the caller must invoke it.
    pub fn try_send(&mut self, value: T) -> (res: Result<Option<Waker>, TrySendError<T>>)
        requires
            old(self).wf(),
            old(self)@.senders >= 1,
            old(self)@.sent < MAX_POSITION,
        ensures
            final(self).wf(),
            final(self)@ == spec_send(old(self)@, value),
            res == (if old(self)@.rx_closed {
                Err::<Option<Waker>, TrySendError<T>>(TrySendError::Closed(value))
            } else {
                Ok(old(self)@.rx_waker)
            }),
    {
        if self.semaphore.try_acquire().is_err() {
            return Err(TrySendError::Closed(value));
        }
        // Push the value
        self.tx.push(Ghost(self.rx), value);

        // Notify the rx task
        Ok(self.rx_waker.wake())
    }

    /// Receives the next value.
    ///
    /// Yields the oldest message if there is one. Yields the end of the
    /// stream if there is none and either every sender is gone or the
    /// receive half is closed; asking again yields the same. Otherwise the
    /// context's wake handle is registered, in place of any registered
    /// before, and the receive is pending.
    pub fn recv(&mut self, cx: &mut Context) -> (res: Poll<Option<T>>)
        requires
            old(self).wf(),
        ensures
            final(self).wf(),
            final(self)@ == spec_recv(old(self)@, old(cx).spec_waker()).0,
            res == spec_recv(old(self)@, old(cx).spec_waker()).1,
            *final(cx) == *old(cx),
    {
        match self.rx.pop(&mut self.tx) {
            Some(Read::Value(value)) => {
                self.semaphore.add_permit();
                return Poll::Ready(Some(value));
            },
            Some(Read::Closed) => {
                assert(self.tx.queue(&self.rx) =~= old(self).tx.queue(&old(self).rx));
                return Poll::Ready(None);
            },
            None => {},
        }
        assert(self.tx.queue(&self.rx) =~= old(self).tx.queue(&old(self).rx));
        if self.rx_closed && self.semaphore.is_idle() {
            Poll::Ready(None)
        } else {
            self.rx_waker.register_by_ref(&cx.waker());
            Poll::Pending
        }
    }

    /// Closes the receive half: later sends are refused. Messages already
    /// queued can still be received.
    pub fn close(&mut self)
        requires
            old(self).wf(),
        ensures
            final(self).wf(),
            final(self)@ == (ChanView { rx_closed: true, ..old(self)@ }),
    {
        self.rx_closed = true;
        self.semaphore.close();
    }

    /// Accounts for a new sender, made from a live one.
    pub fn clone_sender(&mut self)
        requires
            old(self).wf(),
            1 <= old(self)@.senders < usize::MAX,
        ensures
            final(self).wf(),
            final(self)@ == (ChanView { senders: old(self)@.senders + 1, ..old(self)@ }),
    {
        self.tx_count = self.tx_count + 1;
    }

    /// Accounts for a sender that is dropped. The last sender to go closes
    /// the send half of the list; the receiver's wake handle, if one was
    /// registered, is then returned for the caller to invoke.
    pub fn drop_sender(&mut self) -> (wake: Option<Waker>)
        requires
            old(self).wf(),
            old(self)@.senders >= 1,
        ensures
            final(self).wf(),
            final(self)@ == (ChanView {
                senders: (old(self)@.senders - 1) as nat,
                rx_waker: if old(self)@.senders == 1 {
                    None
                } else {
                    old(self)@.rx_waker
                },
                ..old(self)@
            }),
            wake == (if old(self)@.senders == 1 {
                old(self)@.rx_waker
            } else {
                None
            }),
    {
        self.tx_count = self.tx_count - 1;
        if self.tx_count != 0 {
            return None;
        }
        // Close the list, which sends a `Closed` message
        self.tx.close(Ghost(self.rx));

        // Notify the receiver
        self.rx_waker.wake()
    }
}

} // verus!
