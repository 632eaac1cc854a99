//! The ways in which an attempt to claim a name can fail outright.

use vstd::prelude::*;

verus! {

/// Why no claim could be made. A name that is already held is no error: the
/// claim is then made and reports that it is not single.
#[derive(Debug, Clone, Copy, PartialEq, Eq, Structural)]
pub enum SingleInstanceError {
    /// The name is empty or cannot be written in the string form that the
    /// operating system takes.
    InvalidName,
    /// The operating system refused to create, open or claim the socket or
    /// file behind the name. The number is its error code.
    ResourceCreationFailed(i32),
    /// No usable mutex handle came back. The number is the error code that the
    /// operating system reported for the call.
    MutexError(u32),
}

} // verus!
