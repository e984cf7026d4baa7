//! A single-threaded cooperative task runtime, verified with Verus.
//!
//! The crate holds the decision logic of the runtime: the packed lifecycle
//! word of a task, the task cell and its harness, the cooperative budget,
//! the scheduler's choice of what to do next, and the block-structured
//! unbounded channel. Running user computations and blocking the thread is
//! left to the embedding program, which feeds the outcomes back in.

pub mod coop;
pub mod future;
pub mod park;
pub mod runtime;
pub mod sync;
