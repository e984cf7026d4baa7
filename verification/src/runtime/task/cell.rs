//! The task cell: header, core and trailer.

use crate::future::Waker;
use crate::runtime::task::state::State;
use crate::runtime::task::JoinError;
use vstd::prelude::*;

verus! {

/// What the core of a task holds. The stage only moves forward: from
/// `Running` to `Finished` or `Consumed`, and from `Finished` to `Consumed`.
pub enum Stage<T> {
    /// The computation is live.
    Running,
    /// The computation has completed and its output waits to be read.
    Finished(Result<T, JoinError>),
    /// The output has been read or discarded.
    Consumed,
}

/// Hot data of a task.
pub struct Header {
    /// The lifecycle word.
    pub state: State,
}

/// The core of a task: its stage, and whether a scheduler has bound it.
pub struct Core<T> {
    /// Set when the task is first executed and thereby bound to a scheduler.
    pub bound: bool,
    /// The live computation's place, or the output.
    pub stage: Stage<T>,
}

/// Cold data of a task.
pub struct Trailer {
    /// The handle of whoever waits for the task to complete.
    pub waker: Option<Waker>,
}

/// The task cell.
pub struct Cell<T> {
    pub header: Header,
    pub core: Core<T>,
    pub trailer: Trailer,
}

impl<T> Cell<T> {
    /// A new cell around `state`: running, unbound, with no waker stored.
    pub fn new(state: State) -> (cell: Cell<T>)
        ensures
            cell.header.state == state,
            cell.core.stage is Running,
            !cell.core.bound,
            cell.trailer.waker is None,
    {
        Cell {
            header: Header { state },
            core: Core { bound: false, stage: Stage::Running },
            trailer: Trailer { waker: None },
        }
    }
}

impl<T> Core<T> {
    /// Discards the computation or the output.
    pub fn drop_future_or_output(&mut self)
        ensures
            final(self).stage is Consumed,
            final(self).bound == old(self).bound,
    {
        self.stage = Stage::Consumed;
    }

    /// Stores the output of the completed computation.
    pub fn store_output(&mut self, output: Result<T, JoinError>)
        requires
            old(self).stage is Running,
        ensures
            final(self).stage == Stage::Finished(output),
            final(self).bound == old(self).bound,
    {
        self.stage = Stage::Finished(output);
    }

    /// Takes the task output, which is thereby consumed. The output must
    /// be there: it is taken once.
    pub fn take_output(&mut self) -> (out: Result<T, JoinError>)
        requires
            old(self).stage is Finished,
        ensures
            old(self).stage == Stage::Finished(out),
            final(self).stage is Consumed,
            final(self).bound == old(self).bound,
    {
        let mut stage = Stage::Consumed;
        std::mem::swap(&mut self.stage, &mut stage);
        match stage {
            Stage::Finished(out) => out,
            _ => vstd::pervasive::unreached(),
        }
    }
}

} // verus!
