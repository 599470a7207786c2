//! Error numbers of the operating system.

use vstd::prelude::*;

verus! {

/// An error number of the operating system.
#[derive(Clone, Copy, Debug, PartialEq, Eq, Structural)]
pub struct Errno(pub i32);

impl Errno {
    /// Returns the error with the given number.
    pub fn new(errno: i32) -> (error: Errno)
        ensures
            error == Errno(errno),
    {
        Errno(errno)
    }

    /// Returns the number of the error.
    pub fn errno(self) -> (errno: i32)
        ensures
            errno == self.0,
    {
        self.0
    }

    /// Whether the operating system can have given this error as that of the last system call that
    /// failed.
    pub closed spec fn is_last(self) -> bool {
        call_ensures(last_error_number, (), self.0)
    }

    /// Returns the error of the last system call that failed in the calling thread, as the
    /// operating system gives it.
    pub fn last() -> (error: Errno)
        ensures
            error.is_last(),
    {
        Errno(last_error_number())
    }
}

/// An error has the number that it was made from.
pub proof fn law_errors_keep_their_numbers(number: i32, error: Errno, errno: i32)
    requires
        call_ensures(Errno::new, (number,), error),
        call_ensures(Errno::errno, (error,), errno),
    ensures
        errno == number,
        error.0 == number,
{
}

/// An error is the last one exactly if the operating system can have given its number.
proof fn law_the_last_error_has_the_number_that_was_given(error: Errno)
    ensures
        error.is_last() <==> call_ensures(last_error_number, (), error.0),
{
}

/// Calls `vmm_sys_util::errno::Error::last` and hands back the number in the error.
///
/// Nothing is claimed of the number: it is what the operating system last left in the calling
/// thread.
#[verifier::external_body]
fn last_error_number() -> i32 {
    vmm_sys_util::errno::Error::last().errno()
}

/// Returns `libc::EINVAL`, which is 22 on Linux.
#[verifier::external_body]
pub(crate) fn invalid_argument() -> (errno: i32)
    ensures
        errno == 22,
{
    libc::EINVAL
}

} // verus!
