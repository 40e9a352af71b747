//! Status codes of the completion engine and the three-way outcome of a
//! non-blocking submission.
use vstd::prelude::*;

verus! {

/// The operation finished successfully.
pub const UCS_OK: i8 = 0;

/// The operation is still in progress.
pub const UCS_INPROGRESS: i8 = 1;

/// The most negative error status; every error lies in `UCS_ERR_LAST..=-1`.
pub const UCS_ERR_LAST: i8 = -100;

/// What a non-blocking submission returned: the operation finished inline,
/// is still running behind a request ticket, or was refused.
#[derive(Debug, Clone, Copy, PartialEq, Eq, Structural)]
pub enum Submitted {
    Done,
    Pending(usize),
    Failed(i8),
}

/// The first word of the status-pointer encoding that denotes an error
/// (`UCS_ERR_LAST` reinterpreted as an address).
pub open spec fn err_floor() -> int {
    usize::MAX - 99
}

/// A status pointer that is a real request handle.
pub open spec fn ptr_is_ptr(raw: usize) -> bool {
    1 <= raw < err_floor()
}

/// A status pointer that carries an error status.
pub open spec fn ptr_is_err(raw: usize) -> bool {
    raw >= err_floor()
}

/// The error status carried by an error pointer: the word read as signed.
pub open spec fn ptr_raw_status(raw: usize) -> int {
    raw - (usize::MAX + 1)
}

/// The meaning of a status pointer returned by a submission.
pub open spec fn spec_decode(raw: usize) -> Submitted {
    if raw == 0 {
        Submitted::Done
    } else if ptr_is_ptr(raw) {
        Submitted::Pending(raw)
    } else {
        Submitted::Failed(ptr_raw_status(raw) as i8)
    }
}

/// Decodes a status pointer: null is inline success, a word below the error
/// range is a request ticket, and the top hundred words are error statuses.
pub fn decode_status_ptr(raw: usize) -> (r: Submitted)
    ensures
        r == spec_decode(raw),
        r is Done <==> raw == 0,
        r is Pending <==> ptr_is_ptr(raw),
        r is Failed <==> ptr_is_err(raw),
        r matches Submitted::Failed(s) ==> UCS_ERR_LAST <= s < 0,
{
    if raw == 0 {
        Submitted::Done
    } else if raw < usize::MAX - 99 {
        Submitted::Pending(raw)
    } else {
        let d: usize = usize::MAX - raw;
        let s: i8 = -(d as i8) - 1;
        Submitted::Failed(s)
    }
}

/// The answer of a completion check: still running, or finished with a value.
#[derive(Debug, PartialEq, Eq)]
pub enum Progress<T> {
    InProgress,
    Complete(T),
}

/// The status-only check's answer for a request status: still running,
/// finished with `UCS_OK`, or finished with an error status.
pub open spec fn spec_poll_normal(status: i8) -> Progress<Result<(), i8>> {
    if status == UCS_INPROGRESS {
        Progress::InProgress
    } else if status == UCS_OK {
        Progress::Complete(Ok(()))
    } else {
        Progress::Complete(Err(status))
    }
}

/// The sized check's answer for a request status and reported length.
pub open spec fn spec_poll_stream(status: i8, length: usize) -> Progress<usize> {
    if status == UCS_INPROGRESS {
        Progress::InProgress
    } else {
        Progress::Complete(length)
    }
}

/// Status-only completion check: the operation is complete once its request
/// status is no longer `UCS_INPROGRESS`; it carries no payload, and a final
/// status other than `UCS_OK` is reported as the operation's error.
pub fn poll_normal(status: i8) -> (r: Progress<Result<(), i8>>)
    ensures
        r == spec_poll_normal(status),
        status == UCS_INPROGRESS ==> r == Progress::<Result<(), i8>>::InProgress,
        status == UCS_OK ==> r == Progress::Complete(Ok::<(), i8>(())),
        status != UCS_INPROGRESS && status != UCS_OK ==> r == Progress::Complete(Err::<(), i8>(status)),
{
    if status == UCS_INPROGRESS {
        Progress::InProgress
    } else if status == UCS_OK {
        Progress::Complete(Ok(()))
    } else {
        Progress::Complete(Err(status))
    }
}

/// Sized completion check: once the request is no longer in progress, the
/// length the engine reported is the result.
pub fn poll_stream(status: i8, length: usize) -> (r: Progress<usize>)
    ensures
        r == spec_poll_stream(status, length),
{
    if status == UCS_INPROGRESS {
        Progress::InProgress
    } else {
        Progress::Complete(length)
    }
}

/// Errors that reach a caller.
#[derive(Debug, Clone, Copy, PartialEq, Eq, Structural)]
pub enum Error {
    /// Creating a connection reported a non-success status.
    Connection(i8),
    /// A flush submission failed synchronously.
    Submission(i8),
    /// A bridged operation finished with an error status.
    Completion(i8),
}

} // verus!
