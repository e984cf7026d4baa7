//! The interface to the time driver. Without a timer, the time driver is
//! the I/O driver it would sit on.

use crate::runtime::io;
use vstd::prelude::*;

verus! {

/// The source of the current time. Without a timer it holds nothing.
#[derive(Debug, Clone, Copy, PartialEq, Eq, Structural)]
pub struct Clock {}

/// The driver the scheduler parks on.
pub type Driver = io::Driver;

/// Creates the clock.
pub fn create_clock() -> (clock: Clock)
    ensures
        clock == (Clock {  }),
{
    Clock {  }
}

/// Creates the time driver on top of the I/O driver: the I/O driver itself.
pub fn create_driver(_enable: bool, io_driver: io::Driver, _clock: Clock) -> (driver: Driver)
    ensures
        driver == io_driver,
{
    io_driver
}

} // verus!
