//! The calls into the operating system, made through the `nix` crate.
//!
//! Nothing here is proved: each function below states what is taken on trust
//! about one function of `nix`. What comes back from the kernel depends on
//! the machine and on the other processes that run on it, so most of these
//! promise nothing, and the code that calls them is verified for every value
//! that they may return.

use vstd::prelude::*;
use vstd::string::StringSliceAdditionalSpecFns;

verus! {

/// The error number of a failed system call, `nix::errno::Errno`.
#[verifier::external_type_specification]
#[verifier::external_body]
pub struct ExErrno(nix::errno::Errno);

/// A Unix socket address, `nix::sys::socket::UnixAddr`.
#[verifier::external_type_specification]
#[verifier::external_body]
pub struct ExUnixAddr(nix::sys::socket::UnixAddr);

/// What a failed call says about the name that was asked for.
#[derive(Debug, Clone, Copy, PartialEq, Eq, Structural)]
pub enum Cause {
    /// The address is bound by another socket.
    AddressInUse,
    /// The lock is held through another open file, and the call did not wait.
    WouldBlock,
    /// Anything else.
    Other,
}

/// A failed system call: what it says about the name, and its error number.
#[derive(Debug, Clone, Copy, PartialEq, Eq, Structural)]
pub struct OsError {
    pub cause: Cause,
    pub code: i32,
}

/// The size in bytes of the path field of a Unix socket address on Linux and
/// Android, the systems that have abstract addresses. An abstract name shares
/// the field with one leading NUL, so it must be shorter.
pub const ABSTRACT_NAME_LIMIT: usize = 108;

/// Reads an error number of `nix`: tells `EADDRINUSE` and `EAGAIN` (which is
/// also `EWOULDBLOCK`) from the other variants of `nix::errno::Errno`, and
/// gives the variant's number. Nothing is claimed of the result.
#[verifier::external_body]
pub(crate) fn read_errno(errno: nix::errno::Errno) -> (error: OsError) {
    let cause = match errno {
        nix::errno::Errno::EADDRINUSE => Cause::AddressInUse,
        nix::errno::Errno::EAGAIN => Cause::WouldBlock,
        _ => Cause::Other,
    };
    OsError { cause, code: errno as i32 }
}

/// Calls `nix::sys::socket::UnixAddr::new_abstract` on the bytes of `name`.
/// It makes no system call. It fails exactly if the name does not fit into
/// the address: if it has `ABSTRACT_NAME_LIMIT` bytes or more.
#[verifier::external_body]
pub(crate) fn abstract_address(name: &str) -> (address: Result<
    nix::sys::socket::UnixAddr,
    nix::errno::Errno,
>)
    ensures
        address is Ok <==> name.spec_bytes().len() < ABSTRACT_NAME_LIMIT,
{
    nix::sys::socket::UnixAddr::new_abstract(name.as_bytes())
}

/// Calls `nix::sys::socket::socket` for a Unix stream socket without flags or
/// protocol, and gives the new descriptor. Nothing is claimed of the result.
#[verifier::external_body]
pub(crate) fn stream_socket() -> (socket: Result<i32, nix::errno::Errno>) {
    nix::sys::socket::socket(
        nix::sys::socket::AddressFamily::Unix,
        nix::sys::socket::SockType::Stream,
        nix::sys::socket::SockFlag::empty(),
        None,
    )
}

/// Calls `nix::sys::socket::bind` to bind the socket `fd` to `address`.
/// Nothing is claimed of the result.
#[verifier::external_body]
pub(crate) fn bind(fd: i32, address: &nix::sys::socket::UnixAddr) -> (bound: Result<
    (),
    nix::errno::Errno,
>) {
    nix::sys::socket::bind(fd, address)
}

/// Calls `nix::fcntl::open` on the path `path`, for reading and writing, to
/// create the file if there is none, with the permission bits `mode`, and
/// gives the new descriptor. Nothing is claimed of the result.
#[verifier::external_body]
pub(crate) fn open_or_create(path: &str, mode: u32) -> (file: Result<i32, nix::errno::Errno>) {
    nix::fcntl::open(
        path,
        nix::fcntl::OFlag::O_RDWR | nix::fcntl::OFlag::O_CREAT,
        nix::sys::stat::Mode::from_bits_truncate(mode),
    )
}

/// Calls `nix::fcntl::flock` for an exclusive lock on the open file `fd`,
/// without waiting. Nothing is claimed of the result.
#[verifier::external_body]
pub(crate) fn lock_exclusive(fd: i32) -> (locked: Result<(), nix::errno::Errno>) {
    nix::fcntl::flock(fd, nix::fcntl::FlockArg::LockExclusiveNonblock)
}

/// Calls `nix::unistd::close` on the descriptor `fd` and drops the answer:
/// there is nothing to do about a descriptor that cannot be closed.
#[verifier::external_body]
pub(crate) fn close(fd: i32)
    opens_invariants none
    no_unwind
{
    let _ = nix::unistd::close(fd);
}

} // verus!
