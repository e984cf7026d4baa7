//! Parking: the token by which a thread that is about to block and the
//! parties that wake it agree on whether it sleeps.
//!
//! Blocking itself is done by the embedding program. `park` tells it whether
//! the thread has to block, `unpark` whether a blocked thread has to be
//! signalled.

use vstd::prelude::*;

verus! {

/// Error returned by `park`. Parking by token cannot fail.
pub type ParkError = ();

/// The states of the token.
#[derive(Debug, Clone, Copy, PartialEq, Eq, Structural)]
pub enum ParkState {
    /// No token, nobody parked.
    Empty,
    /// The thread is blocked and waits for the token.
    Parked,
    /// The token is available.
    Notified,
}

/// Blocks the current thread by token.
#[derive(Debug)]
pub struct ParkThread {
    inner: Inner,
}

/// Unblocks a thread that was blocked by `ParkThread`.
#[derive(Debug)]
pub struct UnparkThread {}

#[derive(Debug)]
struct Inner {
    state: ParkState,
}

impl Inner {
    /// Makes the token available. Returns `true` if a blocked thread must be
    /// signalled.
    fn unpark(&mut self) -> (signal: bool)
        ensures
            final(self).state == ParkState::Notified,
            signal == (old(self).state == ParkState::Parked),
    {
        let signal = match self.state {
            ParkState::Parked => true,
            _ => false,
        };
        self.state = ParkState::Notified;
        signal
    }
}

impl ParkThread {
    /// The state of the token.
    pub closed spec fn state(&self) -> ParkState {
        self.inner.state
    }

    /// A parker with no token.
    pub fn new() -> (p: ParkThread)
        ensures
            p.state() == ParkState::Empty,
    {
        ParkThread { inner: Inner { state: ParkState::Empty } }
    }

    /// Gets a handle that unparks this parker.
    pub fn unpark(&self) -> (handle: UnparkThread)
        ensures
            handle == (UnparkThread {  }),
    {
        UnparkThread {  }
    }

    /// Parks the current thread.
    ///
    /// Returns `Ok(true)` if the thread has to block: no token was
    /// available. Returns `Ok(false)` if the token was available; it is
    /// consumed and the thread goes on at once.
    pub fn park(&mut self) -> (res: Result<bool, ParkError>)
        ensures
            res == Ok::<bool, ParkError>(old(self).state() != ParkState::Notified),
            final(self).state() == (if old(self).state() == ParkState::Notified {
                ParkState::Empty
            } else {
                ParkState::Parked
            }),
    {
        match self.inner.state {
            ParkState::Notified => {
                self.inner.state = ParkState::Empty;
                Ok(false)
            },
            _ => {
                self.inner.state = ParkState::Parked;
                Ok(true)
            },
        }
    }

    /// Parks the current thread for at most `millis` milliseconds.
    ///
    /// With a duration of zero the thread never blocks: the token is
    /// consumed if there is one. Otherwise as `park`.
    pub fn park_timeout(&mut self, millis: u64) -> (res: Result<bool, ParkError>)
        ensures
            res == Ok::<bool, ParkError>(millis != 0 && old(self).state() != ParkState::Notified),
            final(self).state() == (if millis == 0 || old(self).state() == ParkState::Notified {
                ParkState::Empty
            } else {
                ParkState::Parked
            }),
    {
        if millis == 0 {
            self.inner.state = ParkState::Empty;
            Ok(false)
        } else {
            self.park()
        }
    }

    /// The thread has stopped blocking, signalled or not: the token, if
    /// there is one, is consumed.
    pub fn resume(&mut self)
        ensures
            final(self).state() == ParkState::Empty,
    {
        self.inner.state = ParkState::Empty;
    }
}

impl UnparkThread {
    /// Makes the token of `park` available. Returns `true` if the thread is
    /// blocked and must be signalled; every call that finds it blocked says
    /// so.
    pub fn unpark(&self, park: &mut ParkThread) -> (signal: bool)
        ensures
            final(park).state() == ParkState::Notified,
            signal == (old(park).state() == ParkState::Parked),
    {
        park.inner.unpark()
    }
}

} // verus!
