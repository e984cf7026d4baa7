//! The runtime context of a thread: the handle of the runtime that the
//! thread currently works for.

use crate::runtime::handle::Handle;
use vstd::prelude::*;

verus! {

/// Makes `new` the current handle of the thread. Returns the handle that
/// was current before, to be put back by `restore_current` when the work
/// for `new` is over.
pub fn set_current(current: &mut Option<Handle>, new: Handle) -> (previous: Option<Handle>)
    ensures
        *final(current) == Some(new),
        previous == *old(current),
{
    let previous = current.take();
    *current = Some(new);
    previous
}

/// Puts back the handle that was current before `set_current`.
pub fn restore_current(current: &mut Option<Handle>, previous: Option<Handle>)
    ensures
        *final(current) == previous,
{
    *current = previous;
}

} // verus!
