//! The mark that a thread is inside the dynamic extent of an executor.

use vstd::prelude::*;

verus! {

/// Whether the current thread drives an executor.
#[derive(Clone, Copy, Debug, PartialEq, Eq, Structural)]
pub enum EnterContext {
    /// The thread drives an executor.
    Entered { allow_blocking: bool },
    /// The thread does not drive an executor.
    NotEntered,
}

impl EnterContext {
    /// Returns `true` if the thread drives an executor.
    pub fn is_entered(self) -> (b: bool)
        ensures
            b == (self is Entered),
    {
        if let EnterContext::Entered { .. } = self {
            true
        } else {
            false
        }
    }
}

/// Represents an executor context: held while the thread drives an executor.
#[derive(Debug)]
pub struct Enter {}

/// Marks the current thread as being within the dynamic extent of an
/// executor. A runtime cannot be started from within a runtime: the thread
/// must not have been marked.
pub fn enter(entered: &mut EnterContext, allow_blocking: bool) -> (guard: Enter)
    requires
        !(*old(entered) is Entered),
    ensures
        *final(entered) == (EnterContext::Entered { allow_blocking }),
{
    match try_enter(entered, allow_blocking) {
        Some(guard) => guard,
        None => Enter {  },
    }
}

/// Tries to enter a runtime context. Returns `None`, and changes nothing, if
/// the thread is already in a runtime context.
pub fn try_enter(entered: &mut EnterContext, allow_blocking: bool) -> (guard: Option<Enter>)
    ensures
        guard is Some <==> !(*old(entered) is Entered),
        guard is Some ==> *final(entered) == (EnterContext::Entered { allow_blocking }),
        guard is None ==> *final(entered) == *old(entered),
{
    if entered.is_entered() {
        None
    } else {
        *entered = EnterContext::Entered { allow_blocking };
        Some(Enter {  })
    }
}

impl Enter {
    /// Leaves the executor context: the thread is no longer marked.
    pub fn exit(self, entered: &mut EnterContext)
        ensures
            *final(entered) == EnterContext::NotEntered,
    {
        *entered = EnterContext::NotEntered;
    }
}

} // verus!
