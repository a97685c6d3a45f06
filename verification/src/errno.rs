//! Operating-system error codes surfaced by the signal operations.

use vstd::prelude::*;

verus! {

/// The error conditions that the signal operations can report.
///
/// `EINVAL` covers identifiers the kernel rejects, `EPERM` and `ESRCH`
/// cover process-signaling failures (no permission, no such target), and
/// `UnknownErrno` stands for any other raw code handed back by the
/// operating system.
#[derive(Clone, Copy, Debug, PartialEq, Eq, Structural)]
pub enum Errno {
    UnknownErrno,
    EPERM,
    ESRCH,
    EINTR,
    EINVAL,
}

/// Which `Errno` a raw operating-system error code stands for.
pub open spec fn spec_errno_from_raw(code: i32) -> Errno {
    if code == 1 {
        Errno::EPERM
    } else if code == 3 {
        Errno::ESRCH
    } else if code == 4 {
        Errno::EINTR
    } else if code == 22 {
        Errno::EINVAL
    } else {
        Errno::UnknownErrno
    }
}

impl Errno {
    /// Translates a raw error code, as the operating system reports it,
    /// into the corresponding `Errno`.
    pub fn from_raw(code: i32) -> (r: Errno)
        ensures
            r == spec_errno_from_raw(code),
    {
        match code {
            1 => Errno::EPERM,
            3 => Errno::ESRCH,
            4 => Errno::EINTR,
            22 => Errno::EINVAL,
            _ => Errno::UnknownErrno,
        }
    }
}

} // verus!
