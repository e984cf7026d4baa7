//! The unbounded channel.

use crate::future::{Context, Poll, Waker};
use crate::sync::mpsc::chan::{channel, spec_recv, spec_send, Chan, ChanView};
use crate::sync::mpsc::error::SendError;
use crate::sync::mpsc::list::MAX_POSITION;
use vstd::prelude::*;

verus! {

/// Receives values from the associated senders, and holds the channel.
///
/// Instances are created by the `unbounded_channel` function.
pub struct UnboundedReceiver<T> {
    /// The channel
    chan: Chan<T>,
    /// Which channel this is.
    id: Ghost<int>,
}

/// Sends values to the associated receiver.
///
/// A sender stands for one unit of the channel's sender count. It is made by
/// `unbounded_channel` or from another sender of the same channel, and is
/// given up by `drop_sender`. Its operations take the receiver that holds
/// the channel, which must be the receiver of the sender's own channel.
pub struct UnboundedSender {
    /// Which channel the sender belongs to.
    id: Ghost<int>,
}

/// Creates an unbounded channel for communicating between tasks.
///
/// A send on this channel always succeeds as long as the receive half has
/// not been closed. If the receiver falls behind, messages are buffered.
pub fn unbounded_channel<T>() -> (res: (UnboundedSender, UnboundedReceiver<T>))
    ensures
        res.0.channel() == res.1.channel(),
        res.1.wf(),
        res.1@ == (ChanView::<T> {
            queue: Seq::empty(),
            senders: 1,
            rx_closed: false,
            rx_waker: None,
            sent: 0,
            received: 0,
        }),
{
    let chan = channel();
    (UnboundedSender { id: Ghost(0) }, UnboundedReceiver { chan, id: Ghost(0) })
}

impl<T> UnboundedReceiver<T> {
    /// The identity of the channel that this receiver holds. Only the
    /// senders made for this channel have the same.
    pub closed spec fn channel(&self) -> int {
        self.id@
    }

    /// The channel as its users see it.
    pub closed spec fn view(&self) -> ChanView<T> {
        self.chan@
    }

    /// The invariant of the channel.
    pub closed spec fn wf(&self) -> bool {
        self.chan.wf()
    }

    /// Receives the next value for this receiver.
    ///
    /// `Ready(None)` is the end of the stream: the channel is empty and
    /// every sender is gone, or the receiver has closed it. `Pending` means
    /// that the wake handle of `cx` has been registered and will be handed
    /// to whoever sends the next message or drops the last sender.
    pub fn recv(&mut self, cx: &mut Context) -> (res: Poll<Option<T>>)
        requires
            old(self).wf(),
        ensures
            final(self).channel() == old(self).channel(),
            final(self).wf(),
            final(self)@ == spec_recv(old(self)@, old(cx).spec_waker()).0,
            res == spec_recv(old(self)@, old(cx).spec_waker()).1,
            *final(cx) == *old(cx),
    {
        self.chan.recv(cx)
    }

    /// Closes the receiving half without dropping it. Sends are refused from
    /// now on; buffered messages can still be received.
    pub fn close(&mut self)
        requires
            old(self).wf(),
        ensures
            final(self).channel() == old(self).channel(),
            final(self).wf(),
            final(self)@ == (ChanView { rx_closed: true, ..old(self)@ }),
    {
        self.chan.close();
    }

    /// Returns `true` if another message can be sent: the positions of the
    /// channel are not used up.
    pub fn has_room(&self) -> (b: bool)
        ensures
            b == (self@.sent < MAX_POSITION),
    {
        self.chan.sent() < MAX_POSITION
    }

    /// The number of live senders.
    pub fn sender_count(&self) -> (n: usize)
        ensures
            n == self@.senders,
    {
        self.chan.senders()
    }
}

impl UnboundedSender {
    /// The identity of the channel that this sender belongs to.
    pub closed spec fn channel(&self) -> int {
        self.id@
    }

    /// Sends `value` to the receiver `rx`.
    ///
    /// Fails, handing the value back, exactly when the receive half is
    /// closed. On success the value is queued behind all values sent before,
    /// and the receiver's wake handle is returned if one was registered: the
    /// caller must invoke it.
    pub fn send<T>(&self, rx: &mut UnboundedReceiver<T>, value: T) -> (res: Result<
        Option<Waker>,
        SendError<T>,
    >)
        requires
            self.channel() == old(rx).channel(),
            old(rx).wf(),
            old(rx)@.senders >= 1,
            old(rx)@.sent < MAX_POSITION,
        ensures
            final(rx).channel() == old(rx).channel(),
            final(rx).wf(),
            final(rx)@ == spec_send(old(rx)@, value),
            res == (if old(rx)@.rx_closed {
                Err::<Option<Waker>, SendError<T>>(SendError(value))
            } else {
                Ok(old(rx)@.rx_waker)
            }),
    {
        match rx.chan.try_send(value) {
            Ok(wake) => Ok(wake),
            Err(e) => Err(SendError::from_try(e)),
        }
    }

    /// Makes another sender for the receiver `rx`.
    pub fn clone_sender<T>(&self, rx: &mut UnboundedReceiver<T>) -> (tx: UnboundedSender)
        requires
            self.channel() == old(rx).channel(),
            old(rx).wf(),
            1 <= old(rx)@.senders < usize::MAX,
        ensures
            final(rx).channel() == old(rx).channel(),
            tx.channel() == self.channel(),
            final(rx).wf(),
            final(rx)@ == (ChanView { senders: old(rx)@.senders + 1, ..old(rx)@ }),
    {
        rx.chan.clone_sender();
        UnboundedSender { id: Ghost(self.id@) }
    }

    /// Drops the sender. If it was the last one, the stream of `rx` ends
    /// behind the messages already sent, and the receiver's wake handle is
    /// returned if one was registered: the caller must invoke it.
    pub fn drop_sender<T>(self, rx: &mut UnboundedReceiver<T>) -> (wake: Option<Waker>)
        requires
            self.channel() == old(rx).channel(),
            old(rx).wf(),
            old(rx)@.senders >= 1,
        ensures
            final(rx).channel() == old(rx).channel(),
            final(rx).wf(),
            final(rx)@ == (ChanView {
                senders: (old(rx)@.senders - 1) as nat,
                rx_waker: if old(rx)@.senders == 1 {
                    None
                } else {
                    old(rx)@.rx_waker
                },
                ..old(rx)@
            }),
            wake == (if old(rx)@.senders == 1 {
                old(rx)@.rx_waker
            } else {
                None
            }),
    {
        rx.chan.drop_sender()
    }
}

} // verus!
