//! Operating-system errors and what the event code reads from them.

use std::io;
use vstd::prelude::*;

verus! {

/// An operating-system error, carried through unread except for its kind and its code.
#[verifier::external_type_specification]
#[verifier::external_body]
pub struct ExIoError(io::Error);

/// The error kinds that the event code tells apart.
#[derive(Clone, Copy, Debug, PartialEq, Eq, Structural)]
pub enum IoErrorKind {
    Interrupted,
    NotFound,
    WouldBlock,
    Other,
}

/// What `io::Error::kind` answers for `error`, with every kind that is not told apart as
/// `Other`.
pub uninterp spec fn io_error_kind(error: io::Error) -> IoErrorKind;

/// What `io::Error::raw_os_error` answers for `error`.
pub uninterp spec fn io_error_code(error: io::Error) -> Option<i32>;

/// Calls `io::Error::kind`. Claimed: the answer depends on the error alone.
#[verifier::external_body]
pub(crate) fn error_kind(error: &io::Error) -> (kind: IoErrorKind)
    ensures
        kind == io_error_kind(*error),
{
    match error.kind() {
        io::ErrorKind::Interrupted => IoErrorKind::Interrupted,
        io::ErrorKind::NotFound => IoErrorKind::NotFound,
        io::ErrorKind::WouldBlock => IoErrorKind::WouldBlock,
        _ => IoErrorKind::Other,
    }
}

/// Calls `io::Error::raw_os_error`. Claimed: the answer depends on the error alone.
#[verifier::external_body]
pub(crate) fn error_code(error: &io::Error) -> (code: Option<i32>)
    ensures
        code == io_error_code(*error),
{
    error.raw_os_error()
}

/// An operating-system error with what the event code reads from it.
pub struct OsError {
    pub kind: IoErrorKind,
    pub code: Option<i32>,
    pub error: io::Error,
}

impl OsError {
    /// The kind and the code are those of the error.
    pub open spec fn wf(&self) -> bool {
        &&& self.kind == io_error_kind(self.error)
        &&& self.code == io_error_code(self.error)
    }

    /// Reads what matters from `error` and keeps it.
    pub fn new(error: io::Error) -> (read: Self)
        ensures
            read.wf(),
            read.error == error,
    {
        OsError { kind: error_kind(&error), code: error_code(&error), error }
    }
}

/// What is read from an error is what the system says of it, and the error is kept.
pub proof fn errors_are_read_truly(error: io::Error, read: OsError)
    requires
        call_ensures(OsError::new, (error,), read),
    ensures
        read.kind == io_error_kind(error),
        read.code == io_error_code(error),
        read.error == error,
        read.wf() <==> read.kind == io_error_kind(read.error) && read.code == io_error_code(
            read.error,
        ),
{
}

} // verus!
