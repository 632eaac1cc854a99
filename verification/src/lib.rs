//! Answers one question for a running process: is it the only live process
//! that claims a given name on this machine?
//!
//! A claim is made through one call of the operating system that the kernel
//! arbitrates: binding an abstract socket address, taking an advisory lock on
//! a file, or creating a named mutex. The library never waits for a holder to
//! leave, and a claim is released when its owner drops it or dies.
//!
//! - `instance`: the claim, `SingleInstance`, made through a socket or a file.
//! - `name`: which names can be claimed, and that their bytes keep them apart.
//! - `reply`: the answers of the operating system, and what each comes to.
//! - `backend`: the socket and the file mechanism, and how their calls are read.
//! - `mutex`: the name and the answer of a Windows mutex, for a caller that
//!   makes the system calls itself.
//! - `namespace`: what claims do to the names of a machine whose arbiter is
//!   sound, with the laws that follow.
//! - `os`: the calls into the operating system, which are taken on trust.
//! - `error`: why no claim could be made.

pub mod backend;
pub mod error;
pub mod instance;
pub mod mutex;
pub mod name;
pub mod namespace;
pub mod os;
pub mod reply;

pub use crate::backend::Backend;
pub use crate::error::SingleInstanceError;
pub use crate::instance::SingleInstance;
