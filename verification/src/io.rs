//! Errors, polling results and registrars that every backend shares.

use vstd::prelude::*;

verus! {

/// The categories of error that a decision of this library depends on.
#[derive(Clone, Copy, PartialEq, Eq, Debug, Structural)]
pub enum ErrorKind {
    /// The operation would have to wait.
    WouldBlock,
    /// A signal, or the end of the loop, broke the operation off.
    Interrupted,
    /// Fewer bytes were moved than the operation promises.
    WriteZero,
    /// Anything else.
    Other,
}

/// Why an operation failed.
#[derive(Clone, Copy, PartialEq, Eq, Debug, Structural)]
pub enum Error {
    /// The operating system reported the error `code`.
    Os { kind: ErrorKind, code: i32 },
    /// An error without a code of the operating system.
    Simple(ErrorKind),
    /// The loop that was to register an accepted socket is gone.
    LoopDied,
}

impl Error {
    /// The category that an error belongs to.
    pub open spec fn spec_kind(self) -> ErrorKind {
        match self {
            Error::Os { kind, code } => kind,
            Error::Simple(kind) => kind,
            Error::LoopDied => ErrorKind::Interrupted,
        }
    }

    /// The code of the operating system, where there is one.
    pub open spec fn spec_raw_os_error(self) -> Option<i32> {
        match self {
            Error::Os { kind, code } => Some(code),
            _ => None,
        }
    }

    /// The category that this error belongs to.
    pub fn kind(&self) -> (kind: ErrorKind)
        ensures
            kind == self.spec_kind(),
    {
        match *self {
            Error::Os { kind, code: _ } => kind,
            Error::Simple(kind) => kind,
            Error::LoopDied => ErrorKind::Interrupted,
        }
    }

    /// The code of the operating system, where there is one.
    pub fn raw_os_error(&self) -> (code: Option<i32>)
        ensures
            code == self.spec_raw_os_error(),
    {
        match *self {
            Error::Os { kind: _, code } => Some(code),
            _ => None,
        }
    }
}

/// Whether a value can be had yet.
#[derive(PartialEq, Eq, Debug)]
pub enum Async<T> {
    /// The value.
    Ready(T),
    /// It is not there yet.
    NotReady,
}

/// Reads the return value of a system call that reports failure by -1: `last_error` is the error
/// that the thread recorded, and counts for nothing when the call succeeded.
pub fn check(returned: isize, last_error: Error) -> (result: Result<usize, Error>)
    requires
        returned >= -1,
    ensures
        result == (if returned == -1 {
            Err::<usize, Error>(last_error)
        } else {
            Ok::<usize, Error>(returned as usize)
        }),
{
    if returned == -1 {
        Err(last_error)
    } else {
        Ok(returned as usize)
    }
}

/// An entity capable of registering IO handles for event subscription.
pub trait EventRegistrar {
    /// What IO objects are registered through.
    type RegHandle: Sized;
}

/// A value through which IO objects can be registered with `R`.
pub trait AsRegistrar<R: EventRegistrar> {
    /// The handle to register through.
    spec fn registrar(&self) -> R::RegHandle;

    /// The handle to register through.
    fn as_registrar(&self) -> (handle: &R::RegHandle)
        ensures
            *handle == self.registrar(),
    ;
}

/// The kind and the code of an error are those that it was made with; only an error of the
/// operating system has a code, and one of a loop that is gone counts as broken off.
pub proof fn law_error_tells_what_it_was_made_with(
    error: Error,
    kind: ErrorKind,
    code: Option<i32>,
)
    requires
        call_ensures(Error::kind, (&error,), kind),
        call_ensures(Error::raw_os_error, (&error,), code),
    ensures
        error.spec_kind() == kind,
        error.spec_raw_os_error() == code,
        error matches Error::Os { kind: made, code: number } ==> kind == made && code == Some(
            number,
        ),
        error matches Error::Simple(made) ==> kind == made && code is None,
        error is LoopDied ==> kind == ErrorKind::Interrupted && code is None,
{
}

/// A system call fails exactly when it returns -1, with the error that the thread recorded, and
/// otherwise the number that it returned is handed on.
pub proof fn law_failed_call_returns_recorded_error(
    returned: isize,
    last_error: Error,
    result: Result<usize, Error>,
)
    requires
        returned >= -1,
        call_ensures(check, (returned, last_error), result),
    ensures
        result is Err <==> returned == -1,
        result matches Err(error) ==> error == last_error,
        result matches Ok(number) ==> number == returned,
{
}

} // verus!
