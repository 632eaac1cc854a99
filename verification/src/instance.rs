//! The claim itself: one attempt to be the single live holder of a name.

use vstd::prelude::*;
use vstd::string::StringSliceAdditionalSpecFns;
use crate::backend::{bind_reply, lock_reply, Backend};
use crate::error::SingleInstanceError;
use crate::name::{is_valid_name, valid_name};
use crate::os::{
    abstract_address, bind, close, lock_exclusive, open_or_create, read_errno, stream_socket,
    OsError, ABSTRACT_NAME_LIMIT,
};
use crate::reply::{outcome_of, Reply};

verus! {

/// The permission bits of a lock file that a claim creates: its owner may
/// read and write it, nobody else.
pub const LOCK_FILE_MODE: u32 = 0o600;

/// One attempt to claim a name. Whether it made its owner the single holder
/// is settled when it is made and never changes. Dropping the claim releases
/// the name, if the claim holds it.
pub struct SingleInstance {
    name: String,
    backend: Backend,
    /// The descriptor that holds the name; none where another claim holds it.
    handle: Option<i32>,
}

/// What a claim is. The descriptor that it keeps is told by
/// `SingleInstance::descriptor`.
pub struct Claim {
    /// The name that was asked for.
    pub name: Seq<char>,
    /// The mechanism that was used.
    pub backend: Backend,
    /// Whether the attempt found the name free and holds it.
    pub single: bool,
}

impl View for SingleInstance {
    type V = Claim;

    closed spec fn view(&self) -> Claim {
        Claim { name: self.name@, backend: self.backend, single: self.handle is Some }
    }
}

/// What an attempt on `name` through `backend` comes to once the operating
/// system has answered `reply` to the call that arbitrates the name. A name
/// that cannot be claimed is turned down whatever the answer would be.
pub open spec fn claim_of(name: Seq<char>, backend: Backend, reply: Reply) -> Result<
    Claim,
    SingleInstanceError,
> {
    if !valid_name(name) {
        Err(SingleInstanceError::InvalidName)
    } else {
        match outcome_of(reply) {
            Ok(single) => Ok(Claim { name, backend, single }),
            Err(error) => Err(error),
        }
    }
}

/// The descriptor that the claim on `name` keeps when the call made on `fd`
/// was answered with `reply`: `fd` itself where the name was granted, and none
/// in every other case. What is kept is held until the claim is dropped.
pub open spec fn kept_descriptor(name: Seq<char>, fd: i32, reply: Reply) -> Option<i32> {
    if valid_name(name) && reply is Granted {
        Some(fd)
    } else {
        None
    }
}

/// The result of an attempt, with the claim that was made in place of the
/// object that stands for it.
pub open spec fn made(claim: Result<SingleInstance, SingleInstanceError>) -> Result<
    Claim,
    SingleInstanceError,
> {
    match claim {
        Ok(instance) => Ok(instance@),
        Err(error) => Err(error),
    }
}

/// An answer that a socket or a file can get: every answer but that of a call
/// that hands out no handle.
pub open spec fn descriptor_reply(reply: Reply) -> bool {
    !(reply is NoHandle)
}

/// Takes the error number out of a result of `nix`.
fn read_result(result: Result<(), nix::errno::Errno>) -> (read: Result<(), OsError>)
    ensures
        read is Ok <==> result is Ok,
{
    match result {
        Ok(_) => Ok(()),
        Err(errno) => Err(read_errno(errno)),
    }
}

impl SingleInstance {
    /// The name of a claim is one that can be claimed.
    #[verifier::type_invariant]
    spec fn well_named(self) -> bool {
        valid_name(self.name@)
    }

    /// The descriptor that the claim keeps open: the one that holds the name,
    /// where the claim is single, and none where it is not.
    pub closed spec fn descriptor(&self) -> Option<i32> {
        self.handle
    }

    /// A claim is single exactly if it keeps a descriptor.
    pub proof fn lemma_single_keeps_descriptor(&self)
        ensures
            self@.single <==> self.descriptor() is Some,
    {
    }

    /// Claims `name` in the abstract socket namespace of the machine.
    ///
    /// A name that cannot be claimed gives `InvalidName`, and no call is made
    /// for it. For any other name the kernel decides: the claim reports
    /// whether it is single, and `ResourceCreationFailed` says that the kernel
    /// gave no answer. The attempt never waits.
    pub fn new(name: &str) -> (claim: Result<SingleInstance, SingleInstanceError>)
        ensures
            exists|reply: Reply|
                descriptor_reply(reply) && made(claim) == #[trigger] claim_of(
                    name@,
                    Backend::AbstractSocket,
                    reply,
                ),
            !valid_name(name@) ==> made(claim) == Err::<Claim, SingleInstanceError>(
                SingleInstanceError::InvalidName,
            ),
            name.spec_bytes().len() >= ABSTRACT_NAME_LIMIT ==> claim is Err,
            claim matches Ok(instance) ==> (instance.descriptor() is Some <==> instance@.single),
    {
        SingleInstance::with_backend(name, Backend::AbstractSocket)
    }

    /// Claims `name` by the mechanism `backend`.
    ///
    /// A name that cannot be claimed gives `InvalidName`, and no call is made
    /// for it. For any other name the kernel decides: the claim reports
    /// whether it is single, and `ResourceCreationFailed` says that the kernel
    /// gave no answer; a name too long for a socket address is such a case.
    /// Whatever handle the attempt opened and does not keep is closed before
    /// it returns. The attempt never waits.
    pub fn with_backend(name: &str, backend: Backend) -> (claim: Result<
        SingleInstance,
        SingleInstanceError,
    >)
        ensures
            exists|reply: Reply|
                descriptor_reply(reply) && made(claim) == #[trigger] claim_of(name@, backend, reply),
            !valid_name(name@) ==> made(claim) == Err::<Claim, SingleInstanceError>(
                SingleInstanceError::InvalidName,
            ),
            backend is AbstractSocket && name.spec_bytes().len() >= ABSTRACT_NAME_LIMIT
                ==> claim is Err,
            claim matches Ok(instance) ==> (instance.descriptor() is Some <==> instance@.single),
    {
        if !is_valid_name(name) {
            let claim = Err(SingleInstanceError::InvalidName);
            assert(made(claim) == claim_of(name@, backend, Reply::Granted));
            return claim;
        }
        match backend {
            Backend::AbstractSocket => SingleInstance::claim_by_socket(name),
            Backend::FileLock => SingleInstance::claim_by_file(name),
        }
    }

    /// Makes the claim of an attempt whose arbitrating call the caller has
    /// made: `fd` is the descriptor that the call was made on, and `reply` the
    /// answer that it got.
    ///
    /// The descriptor belongs to the attempt from here on. A claim that was
    /// granted its name keeps it, and closes it when it is dropped. In every
    /// other case it is closed here, once, before the result is returned; but
    /// where the answer is that no handle came back, there is nothing to
    /// close, and `fd` is left alone.
    pub fn settle(name: &str, backend: Backend, fd: i32, reply: Reply) -> (claim: Result<
        SingleInstance,
        SingleInstanceError,
    >)
        ensures
            made(claim) == claim_of(name@, backend, reply),
            claim matches Ok(instance) ==> instance.descriptor() == kept_descriptor(
                name@,
                fd,
                reply,
            ),
    {
        if !is_valid_name(name) {
            match reply {
                Reply::NoHandle(_) => {},
                _ => {
                    close(fd);
                },
            }
            return Err(SingleInstanceError::InvalidName);
        }
        SingleInstance::conclude(name, backend, fd, reply)
    }

    /// Acts on the answer to the arbitrating call for a name that can be
    /// claimed: closes `fd` unless it was granted the name, and makes the
    /// claim, which keeps `fd` exactly where it was granted.
    fn conclude(name: &str, backend: Backend, fd: i32, reply: Reply) -> (claim: Result<
        SingleInstance,
        SingleInstanceError,
    >)
        requires
            valid_name(name@),
        ensures
            made(claim) == claim_of(name@, backend, reply),
            claim matches Ok(instance) ==> instance.descriptor() == kept_descriptor(
                name@,
                fd,
                reply,
            ),
    {
        if reply.must_close() {
            close(fd);
        }
        match reply.outcome() {
            Ok(single) => Ok(
                SingleInstance {
                    name: name.to_owned(),
                    backend,
                    handle: if single {
                        Some(fd)
                    } else {
                        None
                    },
                },
            ),
            Err(error) => Err(error),
        }
    }

    /// Ends an attempt whose socket or file could not be had: nothing is
    /// open, and the attempt fails as if the operating system had refused the
    /// name with the same error.
    fn refused(name: &str, backend: Backend, errno: nix::errno::Errno) -> (claim: Result<
        SingleInstance,
        SingleInstanceError,
    >)
        requires
            valid_name(name@),
        ensures
            claim is Err,
            exists|reply: Reply|
                descriptor_reply(reply) && made(claim) == #[trigger] claim_of(name@, backend, reply),
    {
        let code = read_errno(errno).code;
        let claim = Err(SingleInstanceError::ResourceCreationFailed(code));
        assert(made(claim) == claim_of(name@, backend, Reply::Refused(code)));
        claim
    }

    /// Claims `name` by binding a new socket to its abstract address. The
    /// address is made first, so that a name too long for it costs no socket.
    fn claim_by_socket(name: &str) -> (claim: Result<SingleInstance, SingleInstanceError>)
        requires
            valid_name(name@),
        ensures
            exists|reply: Reply|
                descriptor_reply(reply) && made(claim) == #[trigger] claim_of(
                    name@,
                    Backend::AbstractSocket,
                    reply,
                ),
            name.spec_bytes().len() >= ABSTRACT_NAME_LIMIT ==> claim is Err,
            claim matches Ok(instance) ==> (instance.descriptor() is Some <==> instance@.single),
    {
        let address = match abstract_address(name) {
            Ok(address) => address,
            Err(errno) => {
                return SingleInstance::refused(name, Backend::AbstractSocket, errno);
            },
        };
        let fd = match stream_socket() {
            Ok(fd) => fd,
            Err(errno) => {
                return SingleInstance::refused(name, Backend::AbstractSocket, errno);
            },
        };
        let reply = bind_reply(read_result(bind(fd, &address)));
        SingleInstance::conclude(name, Backend::AbstractSocket, fd, reply)
    }

    /// Claims `name` by opening the file at that path, which is created if
    /// there is none, and asking for the exclusive lock on it without waiting.
    fn claim_by_file(name: &str) -> (claim: Result<SingleInstance, SingleInstanceError>)
        requires
            valid_name(name@),
        ensures
            exists|reply: Reply|
                descriptor_reply(reply) && made(claim) == #[trigger] claim_of(
                    name@,
                    Backend::FileLock,
                    reply,
                ),
            claim matches Ok(instance) ==> (instance.descriptor() is Some <==> instance@.single),
    {
        let fd = match open_or_create(name, LOCK_FILE_MODE) {
            Ok(fd) => fd,
            Err(errno) => {
                return SingleInstance::refused(name, Backend::FileLock, errno);
            },
        };
        let reply = lock_reply(read_result(lock_exclusive(fd)));
        SingleInstance::conclude(name, Backend::FileLock, fd, reply)
    }

    /// Whether this claim made its owner the single live holder of the name.
    /// The answer was fixed when the claim was made.
    pub fn is_single(&self) -> (single: bool)
        ensures
            single == self@.single,
            single == self.descriptor() is Some,
    {
        self.handle.is_some()
    }

    /// The descriptor that the claim keeps open, if it is single. It is the
    /// claim's own: whoever closes it elsewhere gives the name away.
    pub fn handle(&self) -> (handle: Option<i32>)
        ensures
            handle == self.descriptor(),
    {
        self.handle
    }

    /// Releases the name now, without waiting for the claim to go out of
    /// scope, and tells which descriptor was closed for it: the one that the
    /// claim kept, and none for a claim that is not single.
    pub fn release(self) -> (closed: Option<i32>)
        ensures
            closed == self.descriptor(),
            closed is Some <==> self@.single,
    {
        let mut claim = self;
        claim.close_kept()
    }

    /// Closes the descriptor that the claim keeps, that one and no other, and
    /// tells which it was. The claim keeps none afterwards, so that nothing is
    /// closed twice.
    fn close_kept(&mut self) -> (closed: Option<i32>)
        ensures
            closed == old(self).descriptor(),
            final(self).descriptor() is None,
            !final(self)@.single,
            final(self)@.name == old(self)@.name,
            final(self)@.backend == old(self)@.backend,
        opens_invariants none
        no_unwind
    {
        proof {
            use_type_invariant(&*self);
        }
        let kept = self.handle;
        match kept {
            Some(fd) => {
                close(fd);
                self.handle = None;
            },
            None => {},
        }
        kept
    }

    /// The name that was asked for.
    pub fn name(&self) -> (name: &str)
        ensures
            name@ == self@.name,
            valid_name(name@),
    {
        proof {
            use_type_invariant(self);
        }
        self.name.as_str()
    }

    /// The mechanism that was used.
    pub fn backend(&self) -> (backend: Backend)
        ensures
            backend == self@.backend,
    {
        self.backend
    }
}

impl Drop for SingleInstance {
    /// Releases the name: closes the descriptor that the claim keeps, and
    /// keeps none afterwards. A claim that is not single has nothing to close
    /// and closes nothing.
    fn drop(&mut self)
        ensures
            !final(self)@.single,
            final(self).descriptor() is None,
            final(self)@.name == old(self)@.name,
            final(self)@.backend == old(self)@.backend,
        opens_invariants none
        no_unwind
    {
        let _ = self.close_kept();
    }
}

} // verus!
