//! The answer of the operating system to a claim attempt, and what the
//! attempt comes to.
//!
//! Every backend makes one call that the kernel arbitrates. Whatever the call
//! is, its answer is one of four, and the rule that turns the answer into the
//! result of the attempt is the same for all backends.

use vstd::prelude::*;
use crate::error::SingleInstanceError;

verus! {

/// How the operating system answered the call that arbitrates a name.
#[derive(Debug, Clone, Copy, PartialEq, Eq, Structural)]
pub enum Reply {
    /// The name was free. The handle of the attempt now holds it.
    Granted,
    /// Another live claim holds the name. The handle of the attempt holds
    /// nothing.
    Held,
    /// The call failed for another reason, with this error code. The handle of
    /// the attempt is still open.
    Refused(i32),
    /// The call gave no usable handle, and reported this error code.
    NoHandle(u32),
}

/// What an attempt comes to: `Ok(true)` for the first live holder of the name,
/// `Ok(false)` where another holds it, and an error where the operating system
/// gave no answer to the question. An error is never read as "single".
pub open spec fn outcome_of(reply: Reply) -> Result<bool, SingleInstanceError> {
    match reply {
        Reply::Granted => Ok(true),
        Reply::Held => Ok(false),
        Reply::Refused(code) => Err(SingleInstanceError::ResourceCreationFailed(code)),
        Reply::NoHandle(code) => Err(SingleInstanceError::MutexError(code)),
    }
}

/// Whether the attempt left a handle that must be closed at once: one that
/// lost the name, or one whose call failed. A handle that was granted the name
/// stays open for as long as the claim lives.
pub open spec fn closes_handle(reply: Reply) -> bool {
    reply is Held || reply is Refused
}

impl Reply {
    /// The result of the attempt that got this answer.
    pub fn outcome(&self) -> (result: Result<bool, SingleInstanceError>)
        ensures
            result == outcome_of(*self),
    {
        match self {
            Reply::Granted => Ok(true),
            Reply::Held => Ok(false),
            Reply::Refused(code) => Err(SingleInstanceError::ResourceCreationFailed(*code)),
            Reply::NoHandle(code) => Err(SingleInstanceError::MutexError(*code)),
        }
    }

    /// Whether the handle of the attempt must be closed before the attempt
    /// returns.
    pub fn must_close(&self) -> (close: bool)
        ensures
            close == closes_handle(*self),
    {
        match self {
            Reply::Held => true,
            Reply::Refused(_) => true,
            _ => false,
        }
    }
}

} // verus!
