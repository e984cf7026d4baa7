//! The interface to the I/O driver. Without I/O, the driver is a parker.

use crate::park::{ParkState, ParkThread};
use vstd::prelude::*;

verus! {

/// Why a runtime could not be built.
#[derive(Debug, Clone, Copy, PartialEq, Eq, Structural)]
pub enum BuildError {
    /// A driver could not be created.
    Driver,
}

/// The I/O driver: a parker by token.
pub type Driver = ParkThread;

/// Creates the I/O driver. A parker can always be created.
pub fn create_driver(_enable: bool) -> (res: Result<Driver, BuildError>)
    ensures
        res is Ok,
        res->Ok_0.state() == ParkState::Empty,
{
    let driver = ParkThread::new();
    Ok(driver)
}

} // verus!
