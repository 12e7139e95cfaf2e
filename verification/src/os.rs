//! Error numbers of the operating system.

use vstd::prelude::*;

verus! {

/// No such file or directory; here: no such registration.
pub const ENOENT: i32 = 2;

/// Bad file descriptor.
pub const EBADF: i32 = 9;

/// File exists; here: the descriptor is registered already.
pub const EEXIST: i32 = 17;

/// Invalid argument.
pub const EINVAL: i32 = 22;

/// An error that the operating system describes by a number.
#[derive(Clone, Copy, Debug, PartialEq, Eq, Structural)]
pub struct OsError {
    /// The error number.
    pub code: i32,
}

/// The constant `libc::ENOENT`, which is 2 on Linux.
#[verifier::external_body]
fn libc_enoent() -> (code: i32)
    ensures
        code == ENOENT,
{
    libc::ENOENT
}

/// The constant `libc::EBADF`, which is 9 on Linux.
#[verifier::external_body]
fn libc_ebadf() -> (code: i32)
    ensures
        code == EBADF,
{
    libc::EBADF
}

/// The constant `libc::EEXIST`, which is 17 on Linux.
#[verifier::external_body]
fn libc_eexist() -> (code: i32)
    ensures
        code == EEXIST,
{
    libc::EEXIST
}

/// The constant `libc::EINVAL`, which is 22 on Linux.
#[verifier::external_body]
fn libc_einval() -> (code: i32)
    ensures
        code == EINVAL,
{
    libc::EINVAL
}

impl OsError {
    /// The error for something that is not registered.
    pub fn not_found() -> (error: OsError)
        ensures
            error.code == ENOENT,
    {
        OsError { code: libc_enoent() }
    }

    /// The error for an impossible file descriptor.
    pub fn bad_descriptor() -> (error: OsError)
        ensures
            error.code == EBADF,
    {
        OsError { code: libc_ebadf() }
    }

    /// The error for something that is registered already.
    pub fn already_exists() -> (error: OsError)
        ensures
            error.code == EEXIST,
    {
        OsError { code: libc_eexist() }
    }

    /// The error for an argument out of range.
    pub fn invalid_argument() -> (error: OsError)
        ensures
            error.code == EINVAL,
    {
        OsError { code: libc_einval() }
    }
}

} // verus!
