//! Channel error types.

use vstd::prelude::*;

verus! {

/// Error returned by the sender: the receive half is closed. It hands the
/// value back.
#[derive(Debug, PartialEq, Eq)]
pub struct SendError<T>(pub T);

/// The possible error outcomes of trying to send without waiting.
#[derive(Debug, PartialEq, Eq)]
pub enum TrySendError<T> {
    /// The data could not be sent on the channel because the channel is
    /// currently full and sending would require blocking.
    Full(T),
    /// The receive half of the channel was explicitly closed or has been
    /// dropped.
    Closed(T),
}

/// Error returned when the receive half turns out to be closed while a
/// sender waits for capacity.
#[derive(Debug, PartialEq, Eq)]
pub struct ClosedError(());

impl ClosedError {
    /// Creates the error.
    pub fn new() -> ClosedError {
        ClosedError(())
    }
}

impl<T> TrySendError<T> {
    /// The value that could not be sent.
    pub open spec fn value(self) -> T {
        match self {
            TrySendError::Full(v) => v,
            TrySendError::Closed(v) => v,
        }
    }

    /// Hands back the value that could not be sent.
    pub fn into_inner(self) -> (v: T)
        ensures
            v == self.value(),
    {
        match self {
            TrySendError::Full(v) => v,
            TrySendError::Closed(v) => v,
        }
    }
}

impl<T> SendError<T> {
    /// Turns the outcome of a send without waiting into a send error, which
    /// carries the same value.
    pub fn from_try(e: TrySendError<T>) -> (s: SendError<T>)
        ensures
            s.0 == e.value(),
    {
        SendError(e.into_inner())
    }
}

} // verus!
