//! Builds a runtime.

use crate::runtime::basic_scheduler::{BasicScheduler, Progress};
use crate::runtime::blocking::create_blocking_pool;
use crate::runtime::handle::Handle;
use crate::runtime::io::BuildError;
use crate::runtime::task::Notified;
use crate::runtime::{io, time, Kind, Runtime};
use vstd::prelude::*;

verus! {

/// Builds a runtime with the chosen drivers.
#[derive(Debug)]
pub struct Builder {
    /// Whether or not to enable the I/O driver
    enable_io: bool,
    /// Whether or not to enable the time driver
    enable_time: bool,
}

impl Builder {
    /// Whether the I/O driver is enabled.
    pub closed spec fn io_enabled(&self) -> bool {
        self.enable_io
    }

    /// Whether the time driver is enabled.
    pub closed spec fn time_enabled(&self) -> bool {
        self.enable_time
    }

    /// A builder with both drivers off.
    pub fn new() -> (b: Builder)
        ensures
            !b.io_enabled(),
            !b.time_enabled(),
    {
        Builder {
            // I/O defaults to "off"
            enable_io: false,
            // Time defaults to "off"
            enable_time: false,
        }
    }

    /// Enables both drivers.
    pub fn enable_all(&mut self)
        ensures
            final(self).io_enabled(),
            final(self).time_enabled(),
    {
        self.enable_io = true;
        self.enable_time = true;
    }

    /// Creates the runtime: a scheduler for the current thread, on top of
    /// the time driver, on top of the I/O driver. The builder stays as it
    /// is.
    ///
    /// The runtime has no tasks, stands at tick zero with its root
    /// computation due, and can be entered.
    pub fn build(&mut self) -> (res: Result<Runtime, BuildError>)
        ensures
            *final(self) == *old(self),
            res is Ok,
            res->Ok_0.is_new(),
    {
        let clock = time::create_clock();

        // Create I/O driver
        let io_driver = match io::create_driver(self.enable_io) {
            Ok(driver) => driver,
            Err(e) => {
                return Err(e);
            },
        };

        let driver = time::create_driver(self.enable_time, io_driver, clock);

        // And now put a single-threaded scheduler on top of the timer. When
        // there are no tasks ready to do something, it lets the timer or the
        // reactor generate some new stimuli for the tasks to continue.
        let scheduler = BasicScheduler::new(driver);

        // Blocking pool
        let blocking_pool = create_blocking_pool(0);

        Ok(Runtime { kind: Kind::Basic(scheduler), handle: Handle { clock }, blocking_pool })
    }
}

} // verus!
