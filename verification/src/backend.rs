//! The two mechanisms by which a Unix process claims a name, and how the
//! result of each one's arbitrating call is read.

use vstd::prelude::*;
use crate::os::{Cause, OsError};
use crate::reply::Reply;

verus! {

/// The mechanism behind a claim.
#[derive(Debug, Clone, Copy, PartialEq, Eq, Structural)]
pub enum Backend {
    /// A stream socket bound to the abstract address that the name gives. The
    /// address lives in the kernel, leaves no trace in the file system, and is
    /// free again as soon as the socket is closed.
    AbstractSocket,
    /// An exclusive advisory lock on the whole file at the path that the name
    /// gives. The file is created if there is none, and it stays when the
    /// claim is dropped: what it holds does not matter. The lock belongs to
    /// the open file and goes with it.
    ///
    /// Some systems give such a lock to the process, not to the open file.
    /// There a process that claims one path twice is granted the lock both
    /// times, and both claims are single. Across processes the lock holds
    /// everywhere. Where one process must not hold a name twice, use
    /// `AbstractSocket`.
    FileLock,
}

/// How a `bind` is read: success grants the name, "address in use" means that
/// another socket holds it, and any other failure is a refusal.
pub open spec fn bind_reply_of(bound: Result<(), OsError>) -> Reply {
    match bound {
        Ok(_) => Reply::Granted,
        Err(error) => if error.cause == Cause::AddressInUse {
            Reply::Held
        } else {
            Reply::Refused(error.code)
        },
    }
}

/// How a lock request that does not wait is read: success grants the name,
/// "would block" means that another open file holds the lock, and any other
/// failure is a refusal.
pub open spec fn lock_reply_of(locked: Result<(), OsError>) -> Reply {
    match locked {
        Ok(_) => Reply::Granted,
        Err(error) => if error.cause == Cause::WouldBlock {
            Reply::Held
        } else {
            Reply::Refused(error.code)
        },
    }
}

/// Reads the result of binding a socket to the address of a name.
pub fn bind_reply(bound: Result<(), OsError>) -> (reply: Reply)
    ensures
        reply == bind_reply_of(bound),
{
    match bound {
        Ok(_) => Reply::Granted,
        Err(error) => match error.cause {
            Cause::AddressInUse => Reply::Held,
            _ => Reply::Refused(error.code),
        },
    }
}

/// Reads the result of asking, without waiting, for the exclusive lock on the
/// file of a name.
pub fn lock_reply(locked: Result<(), OsError>) -> (reply: Reply)
    ensures
        reply == lock_reply_of(locked),
{
    match locked {
        Ok(_) => Reply::Granted,
        Err(error) => match error.cause {
            Cause::WouldBlock => Reply::Held,
            _ => Reply::Refused(error.code),
        },
    }
}

} // verus!
