//! A slot for the wake handle of a waiting consumer.

use crate::future::Waker;
use vstd::prelude::*;

verus! {

/// Holds the wake handle of the party that waits for a computation done
/// elsewhere.
///
/// The consumer registers its handle before it checks the result; the
/// producer takes the handle after it has made the result visible. Taking
/// before anything was registered yields nothing.
#[derive(Debug)]
pub struct AtomicWaker {
    waker: Option<Waker>,
}

impl AtomicWaker {
    /// The handle registered and not yet taken.
    pub closed spec fn view(&self) -> Option<Waker> {
        self.waker
    }

    /// Creates an `AtomicWaker` with no handle registered.
    pub fn new() -> (w: AtomicWaker)
        ensures
            w@ is None,
    {
        AtomicWaker { waker: None }
    }

    /// Registers `waker`, in place of any handle registered before.
    pub fn register_by_ref(&mut self, waker: &Waker)
        ensures
            final(self)@ == Some(*waker),
    {
        self.waker = Some(*waker);
    }

    /// Takes the registered handle out, for the caller to invoke.
    pub fn wake(&mut self) -> (waker: Option<Waker>)
        ensures
            waker == old(self)@,
            final(self)@ is None,
    {
        self.waker.take()
    }
}

impl Default for AtomicWaker {
    fn default() -> (w: Self)
        ensures
            w@ is None,
    {
        AtomicWaker::new()
    }
}

} // verus!
