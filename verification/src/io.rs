//! The two-case result of a non-blocking operation.

use vstd::prelude::*;
use crate::error::{Cause, Error, OsError};

verus! {

/// What a non-blocking operation came to: it finished and produced a value, or
/// it could not finish without waiting. The second case is no failure; the
/// caller waits for the next readiness event and tries again.
#[derive(Debug, PartialEq, Eq)]
pub enum NonBlock<T> {
    /// The operation finished with this value.
    Ready(T),
    /// The operation would have had to wait.
    WouldBlock,
}

impl<T> NonBlock<T> {
    /// Whether the operation would have had to wait.
    pub fn would_block(&self) -> (r: bool)
        ensures
            r == (*self is WouldBlock),
    {
        match self {
            NonBlock::WouldBlock => true,
            NonBlock::Ready(_) => false,
        }
    }

    /// Whether the operation finished.
    pub fn is_ready(&self) -> (r: bool)
        ensures
            r == (*self is Ready),
    {
        match self {
            NonBlock::Ready(_) => true,
            NonBlock::WouldBlock => false,
        }
    }

    /// The value of an operation that finished.
    pub fn unwrap(self) -> (r: T)
        requires
            self is Ready,
        ensures
            self == NonBlock::Ready(r),
    {
        match self {
            NonBlock::Ready(value) => value,
            NonBlock::WouldBlock => vstd::pervasive::unreached(),
        }
    }

    /// The value of an operation that finished, or nothing.
    pub fn ready(self) -> (r: Option<T>)
        ensures
            r == match self {
                NonBlock::Ready(value) => Some(value),
                NonBlock::WouldBlock => None::<T>,
            },
    {
        match self {
            NonBlock::Ready(value) => Some(value),
            NonBlock::WouldBlock => None,
        }
    }
}

/// What `nonblock` makes of the outcome of a non-blocking system call.
pub open spec fn nonblock_spec<T>(outcome: Result<T, OsError>) -> Result<NonBlock<T>, Error> {
    match outcome {
        Ok(value) => Ok(NonBlock::Ready(value)),
        Err(failure) => if failure.cause == Cause::WouldBlock {
            Ok(NonBlock::WouldBlock)
        } else {
            Err(Error::Syscall(failure))
        },
    }
}

/// Reads the outcome of a non-blocking system call. A value means that the
/// call finished. A failure that means "would block" is no error: it becomes
/// `WouldBlock`. Every other failure is handed on.
pub fn nonblock<T>(outcome: Result<T, OsError>) -> (r: Result<NonBlock<T>, Error>)
    ensures
        r == nonblock_spec(outcome),
{
    match outcome {
        Ok(value) => Ok(NonBlock::Ready(value)),
        Err(failure) => match failure.cause {
            Cause::WouldBlock => Ok(NonBlock::WouldBlock),
            _ => Err(Error::Syscall(failure)),
        },
    }
}

} // verus!
