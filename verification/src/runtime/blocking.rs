//! The interface to the pool for blocking calls. Without such a pool, the
//! interface is a shell.

use vstd::prelude::*;

verus! {

/// The pool for blocking calls.
#[derive(Debug)]
pub struct BlockingPool {
    shut_down: bool,
}

impl BlockingPool {
    /// Whether the pool has been shut down.
    pub closed spec fn is_shut_down(&self) -> bool {
        self.shut_down
    }

    /// Returns `true` if the pool has been shut down.
    pub fn has_shut_down(&self) -> (b: bool)
        ensures
            b == self.is_shut_down(),
    {
        self.shut_down
    }

    /// Shuts the pool down, waiting for at most `timeout` milliseconds, or
    /// without limit if there is none.
    pub fn shutdown(&mut self, timeout: Option<u64>)
        ensures
            final(self).is_shut_down(),
    {
        let _ = timeout;
        self.shut_down = true;
    }
}

/// Creates the pool for blocking calls, for at most `thread_cap` threads.
pub fn create_blocking_pool(_thread_cap: usize) -> (pool: BlockingPool)
    ensures
        !pool.is_shut_down(),
{
    BlockingPool { shut_down: false }
}

} // verus!
