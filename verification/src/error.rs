//! The error type of the read and write functions.

use vstd::prelude::*;

verus! {

/// An error of a read or write call.
///
/// `Overflow` is the library's own finding and `Os` the system's; the two
/// compare unequal even where the system reports `EOVERFLOW`, though both give
/// the same number through [`Error::raw_os_error`].
#[derive(Debug, Clone, Copy, PartialEq, Eq, Structural)]
pub enum Error {
    /// A file offset does not fit the platform's `off64_t` (`EOVERFLOW`).
    Overflow,
    /// The system call failed with the given `errno` value.
    Os(i32),
}

/// `libc::EOVERFLOW`.
///
/// Claims only that the constant is positive: its number depends on the
/// target (75 on most Linux architectures and on Android, 79 on MIPS, 92 on
/// SPARC, 1073741939 on Hurd), so no single number is stated.
#[verifier::external_body]
fn eoverflow() -> (r: i32)
    ensures
        r > 0,
{
    libc::EOVERFLOW
}

impl Error {
    /// An error that carries the given `errno` value.
    pub fn from_raw_os_error(errno: i32) -> (e: Error)
        ensures
            e == Error::Os(errno),
    {
        Error::Os(errno)
    }

    /// The `errno` value of this error: the stored one for `Os`, and
    /// `EOVERFLOW` for `Overflow`.
    pub fn raw_os_error(&self) -> (r: i32)
        ensures
            match *self {
                Error::Os(n) => r == n,
                Error::Overflow => r > 0,
            },
    {
        match *self {
            Error::Os(n) => n,
            Error::Overflow => eoverflow(),
        }
    }
}

} // verus!
