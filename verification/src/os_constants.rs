//! Numbers that the operating system gives to errors, signals and address families. The values are
//! those of Linux on the usual processors (x86 and ARM).

use vstd::prelude::*;

verus! {

pub const EISCONN: i32 = 106;

pub const EINPROGRESS: i32 = 115;

pub const EALREADY: i32 = 114;

pub const EWOULDBLOCK: i32 = 11;

pub const SIGCHLD: i32 = 17;

pub const SIGTERM: i32 = 15;

pub const SIGPIPE: i32 = 13;

pub const SIGXFSZ: i32 = 25;

pub const AF_UNIX: i32 = 1;

pub const AF_INET: i32 = 2;

pub const AF_INET6: i32 = 10;

pub const FD_CLOEXEC: i32 = 1;

/// The number of Windows Sockets for a socket that is connected already.
pub const WSAEISCONN: i32 = 10056;

/// `libc::EISCONN`: the socket is connected already. On Linux that is 106.
#[verifier::external_body]
pub(crate) fn eisconn() -> (value: i32)
    ensures
        value == EISCONN,
{
    libc::EISCONN
}

/// `libc::EINPROGRESS`: the connection is being made. On Linux that is 115.
#[verifier::external_body]
pub(crate) fn einprogress() -> (value: i32)
    ensures
        value == EINPROGRESS,
{
    libc::EINPROGRESS
}

/// `libc::EALREADY`: the connection was being made before. On Linux that is 114.
#[verifier::external_body]
pub(crate) fn ealready() -> (value: i32)
    ensures
        value == EALREADY,
{
    libc::EALREADY
}

/// `libc::EWOULDBLOCK`: the call would have to wait. On Linux that is 11.
#[verifier::external_body]
pub(crate) fn ewouldblock() -> (value: i32)
    ensures
        value == EWOULDBLOCK,
{
    libc::EWOULDBLOCK
}

/// `libc::SIGCHLD`: a child process changed its state. On Linux that is 17.
#[verifier::external_body]
pub(crate) fn sigchld() -> (value: i32)
    ensures
        value == SIGCHLD,
{
    libc::SIGCHLD
}

/// `libc::SIGTERM`: the request to end. On Linux that is 15.
#[verifier::external_body]
pub(crate) fn sigterm() -> (value: i32)
    ensures
        value == SIGTERM,
{
    libc::SIGTERM
}

/// `libc::SIGPIPE`: nobody reads what is written. On Linux that is 13.
#[verifier::external_body]
pub(crate) fn sigpipe() -> (value: i32)
    ensures
        value == SIGPIPE,
{
    libc::SIGPIPE
}

/// `libc::SIGXFSZ`: a file grew too large. On Linux that is 25.
#[verifier::external_body]
pub(crate) fn sigxfsz() -> (value: i32)
    ensures
        value == SIGXFSZ,
{
    libc::SIGXFSZ
}

/// `libc::AF_UNIX`: sockets in the file system. On Linux that is 1.
#[verifier::external_body]
pub(crate) fn af_unix() -> (value: i32)
    ensures
        value == AF_UNIX,
{
    libc::AF_UNIX
}

/// `libc::AF_INET`: version 4 of the Internet protocol. On Linux that is 2.
#[verifier::external_body]
pub(crate) fn af_inet() -> (value: i32)
    ensures
        value == AF_INET,
{
    libc::AF_INET
}

/// `libc::AF_INET6`: version 6 of the Internet protocol. On Linux that is 10.
#[verifier::external_body]
pub(crate) fn af_inet6() -> (value: i32)
    ensures
        value == AF_INET6,
{
    libc::AF_INET6
}

/// `libc::FD_CLOEXEC`: the flag of a descriptor that a new program does not get. On Linux that
/// is 1.
#[verifier::external_body]
pub(crate) fn fd_cloexec() -> (value: i32)
    ensures
        value == FD_CLOEXEC,
{
    libc::FD_CLOEXEC
}

} // verus!
