//! What can go wrong, and how the failure of a system call is carried to the
//! caller.

use vstd::prelude::*;

verus! {

/// What the operating system meant by a failure, as far as this crate tells
/// failures apart.
#[derive(Clone, Copy, Debug, PartialEq, Eq, Structural)]
pub enum Cause {
    /// A signal cut a wait short.
    Interrupted,
    /// A non-blocking call would have had to wait.
    WouldBlock,
    /// A non-blocking connect has begun to set the connection up.
    InProgress,
    /// Anything else.
    Other,
}

/// The failure of one system call: what it meant, and the error number that
/// the operating system gave. The number is kept for the caller's
/// diagnostics; nothing in this crate reads it.
#[derive(Clone, Copy, Debug, PartialEq, Eq, Structural)]
pub struct OsError {
    pub cause: Cause,
    pub code: i32,
}

/// A failure that is handed to the caller. Nothing is retried or logged on the
/// way.
#[derive(Clone, Copy, Debug, PartialEq, Eq, Structural)]
pub enum Error {
    /// A registration was asked for a descriptor that has one, or a change or
    /// removal for a descriptor that has none.
    InvalidRegistration,
    /// A multicast group or interface address is not an IPv4 address.
    UnsupportedAddressFamily,
    /// The operating system refused a call.
    Syscall(OsError),
}

impl OsError {
    /// The failure with the given meaning and error number.
    pub fn new(cause: Cause, code: i32) -> (r: OsError)
        ensures
            r == (OsError { cause, code }),
    {
        OsError { cause, code }
    }

    /// A failure that this crate gives no meaning of its own.
    pub fn other(code: i32) -> (r: OsError)
        ensures
            r == (OsError { cause: Cause::Other, code }),
    {
        OsError { cause: Cause::Other, code }
    }
}

impl Error {
    /// The error for a system call that failed.
    pub fn from_os(failure: OsError) -> (r: Error)
        ensures
            r == Error::Syscall(failure),
    {
        Error::Syscall(failure)
    }

    /// The error number of the failed system call, if that is what went wrong.
    pub fn errno(&self) -> (r: Option<i32>)
        ensures
            r == match *self {
                Error::Syscall(failure) => Some(failure.code),
                _ => None::<i32>,
            },
    {
        match *self {
            Error::Syscall(failure) => Some(failure.code),
            _ => None,
        }
    }

    /// Whether this is the report of a call that would have had to wait.
    pub fn is_would_block(&self) -> (r: bool)
        ensures
            r == (*self matches Error::Syscall(failure) && failure.cause == Cause::WouldBlock),
    {
        match *self {
            Error::Syscall(failure) => match failure.cause {
                Cause::WouldBlock => true,
                _ => false,
            },
            _ => false,
        }
    }
}

/// What `completed` makes of the outcome of a system call.
pub open spec fn completed_spec<T>(outcome: Result<T, OsError>) -> Result<T, Error> {
    match outcome {
        Ok(value) => Ok(value),
        Err(failure) => Err(Error::Syscall(failure)),
    }
}

/// Reads the outcome of a system call that either did its work or failed: the
/// value is handed on, the failure is wrapped, whatever it meant. This is the
/// whole of what there is to decide after `bind`, `listen`, `accept`,
/// `getpeername`, `getsockname` and after every socket option that was set.
pub fn completed<T>(outcome: Result<T, OsError>) -> (r: Result<T, Error>)
    ensures
        r == completed_spec(outcome),
{
    match outcome {
        Ok(value) => Ok(value),
        Err(failure) => Err(Error::Syscall(failure)),
    }
}

} // verus!
