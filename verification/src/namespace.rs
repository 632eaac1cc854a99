//! The names of one machine, and what claims do to them.
//!
//! The kernel is the arbiter of every claim, and its state is out of reach:
//! other processes change it at any time. What can be said is how an arbiter
//! that is sound must answer, given the names that live claims hold. This
//! module states that, and proves what follows for claims that are made and
//! dropped one after the other on names that nothing else touches meanwhile.
//!
//! Each mechanism has a namespace of its own: a socket address and a file of
//! the same name do not contend. The names below are those of one mechanism.

use vstd::prelude::*;
use crate::backend::Backend;
use crate::instance::{claim_of, kept_descriptor, Claim};
use crate::name::valid_name;
use crate::reply::{closes_handle, outcome_of, Reply};

verus! {

/// The names that live claims hold.
pub type Names = Set<Seq<char>>;

/// An answer that a sound arbiter may give for `name` while the names `held`
/// are held: it grants only a free name, and calls only a held name held.
/// It may refuse at any time.
pub open spec fn sound_reply(held: Names, name: Seq<char>, reply: Reply) -> bool {
    &&& reply is Granted ==> !held.contains(name)
    &&& reply is Held ==> held.contains(name)
}

/// The names held after an attempt on `name` was answered with `reply`: the
/// attempt that was granted the name holds it from then on, and no other
/// attempt changes anything.
pub open spec fn held_after_attempt(held: Names, name: Seq<char>, reply: Reply) -> Names {
    if reply is Granted {
        held.insert(name)
    } else {
        held
    }
}

/// The names held after `claim` is dropped: a single claim gives its name
/// back, and any other claim has nothing to give back.
pub open spec fn held_after_drop(held: Names, claim: Claim) -> Names {
    if claim.single {
        held.remove(claim.name)
    } else {
        held
    }
}

/// While a single claim on a name lives, no other claim on the name is
/// single, and the holder goes on holding the name. Whatever a sound arbiter
/// answers, the attempt ends in a claim that is not single or in an error; and
/// it ends in a claim unless the arbiter refuses.
pub proof fn lemma_live_claim_keeps_others_out(
    held: Names,
    name: Seq<char>,
    backend: Backend,
    reply: Reply,
)
    requires
        valid_name(name),
        held.contains(name),
        sound_reply(held, name, reply),
    ensures
        claim_of(name, backend, reply) matches Ok(claim) ==> !claim.single,
        claim_of(name, backend, reply) is Ok <==> reply is Held,
        claim_of(name, backend, reply) is Err <==> reply is Refused || reply is NoHandle,
        held_after_attempt(held, name, reply) == held,
        held_after_attempt(held, name, reply).contains(name),
{
}

/// Of two attempts made one after the other on a free name, the second while
/// the claim of the first is alive: the first claim is single; and if it was
/// made, the second is not single. Neither is assumed to succeed: an attempt
/// that the arbiter refuses makes no claim, and is an error.
pub proof fn lemma_first_claim_wins(
    held: Names,
    name: Seq<char>,
    backend: Backend,
    first: Reply,
    second: Reply,
)
    requires
        valid_name(name),
        !held.contains(name),
        sound_reply(held, name, first),
        sound_reply(held_after_attempt(held, name, first), name, second),
    ensures
        claim_of(name, backend, first) matches Ok(winner) ==> winner.single,
        claim_of(name, backend, first) is Ok <==> first is Granted,
        claim_of(name, backend, first) is Ok ==> (claim_of(name, backend, second) matches Ok(
            loser,
        ) ==> !loser.single),
        claim_of(name, backend, first) is Ok ==> (claim_of(name, backend, second) is Ok
            <==> second is Held),
{
}

/// Once the first claim on a name is dropped, the name is free: the next
/// claim on it is single again. It makes no difference whether the claim that
/// lost was dropped before. The next attempt makes a claim unless the arbiter
/// refuses.
pub proof fn lemma_drop_frees_name(
    held: Names,
    name: Seq<char>,
    backend: Backend,
    first: Reply,
    second: Reply,
    second_dropped: bool,
    third: Reply,
)
    requires
        valid_name(name),
        !held.contains(name),
        sound_reply(held, name, first),
        sound_reply(held_after_attempt(held, name, first), name, second),
        claim_of(name, backend, first) is Ok,
        claim_of(name, backend, second) is Ok,
        sound_reply(
            {
                let winner = claim_of(name, backend, first)->Ok_0;
                let loser = claim_of(name, backend, second)->Ok_0;
                let both = held_after_attempt(
                    held_after_attempt(held, name, first),
                    name,
                    second,
                );
                held_after_drop(
                    if second_dropped {
                        held_after_drop(both, loser)
                    } else {
                        both
                    },
                    winner,
                )
            },
            name,
            third,
        ),
    ensures
        claim_of(name, backend, third) matches Ok(next) ==> next.single,
        claim_of(name, backend, third) is Ok <==> third is Granted,
{
}

/// The same of any single claim, wherever it came from: once it is dropped,
/// no live claim holds its name, and the next claim on the name is single.
/// The next attempt makes a claim unless the arbiter refuses.
pub proof fn lemma_dropped_claim_frees_name(
    held: Names,
    dropped: Claim,
    backend: Backend,
    next: Reply,
)
    requires
        valid_name(dropped.name),
        dropped.single,
        sound_reply(held_after_drop(held, dropped), dropped.name, next),
    ensures
        !held_after_drop(held, dropped).contains(dropped.name),
        claim_of(dropped.name, backend, next) matches Ok(claim) ==> claim.single,
        claim_of(dropped.name, backend, next) is Ok <==> next is Granted,
{
}

/// Claims on different names never meet: an attempt on one name, and the drop
/// of a claim on it, leave the answers that a sound arbiter may give for any
/// other name as they were. So the order in which claims on different names
/// are made and dropped does not show in any of them.
pub proof fn lemma_names_are_independent(
    held: Names,
    name: Seq<char>,
    reply: Reply,
    dropped: Claim,
    other: Seq<char>,
    other_reply: Reply,
)
    requires
        name != other,
        dropped.name == name,
    ensures
        sound_reply(held_after_attempt(held, name, reply), other, other_reply) <==> sound_reply(
            held,
            other,
            other_reply,
        ),
        sound_reply(held_after_drop(held, dropped), other, other_reply) <==> sound_reply(
            held,
            other,
            other_reply,
        ),
{
}

/// Dropping a claim that is not single changes nothing: the holder of the
/// name still holds it, and a later claim on the name is still not single. It
/// is made unless the arbiter refuses.
pub proof fn lemma_loser_drop_changes_nothing(
    held: Names,
    name: Seq<char>,
    backend: Backend,
    loser: Reply,
    later: Reply,
)
    requires
        valid_name(name),
        sound_reply(held, name, loser),
        claim_of(name, backend, loser) is Ok,
        !claim_of(name, backend, loser)->Ok_0.single,
        sound_reply(
            held_after_drop(
                held_after_attempt(held, name, loser),
                claim_of(name, backend, loser)->Ok_0,
            ),
            name,
            later,
        ),
    ensures
        held_after_drop(
            held_after_attempt(held, name, loser),
            claim_of(name, backend, loser)->Ok_0,
        ) == held,
        held.contains(name),
        claim_of(name, backend, later) matches Ok(claim) ==> !claim.single,
        claim_of(name, backend, later) is Ok <==> later is Held,
{
}

/// A handle stays open exactly where its attempt made a single claim. Where
/// the attempt lost or was refused, its handle is closed at once; where no
/// handle came back, there is none to close. So a single claim holds what it
/// was granted for as long as it lives, and nothing else is left open.
pub proof fn lemma_handle_kept_iff_single(reply: Reply)
    ensures
        outcome_of(reply) == Ok::<bool, crate::error::SingleInstanceError>(true) <==> reply
            is Granted,
        reply is Granted ==> !closes_handle(reply),
        outcome_of(reply) == Ok::<bool, crate::error::SingleInstanceError>(false)
            ==> closes_handle(reply),
        outcome_of(reply) is Err ==> (closes_handle(reply) <==> reply is Refused),
{
}

/// A claim keeps a descriptor exactly if it is single, and then it is the
/// descriptor on which the name was granted, no other.
pub proof fn lemma_single_claim_keeps_what_was_granted(
    name: Seq<char>,
    backend: Backend,
    fd: i32,
    reply: Reply,
)
    ensures
        kept_descriptor(name, fd, reply) is Some <==> (claim_of(name, backend, reply) matches Ok(
            claim,
        ) && claim.single),
        kept_descriptor(name, fd, reply) matches Some(kept) ==> kept == fd && reply is Granted,
{
}

/// A failure to get an answer is never taken for an answer: the attempt fails
/// exactly if the name cannot be claimed or the operating system neither
/// granted the name nor said that it is held.
pub proof fn lemma_failure_is_no_answer(name: Seq<char>, backend: Backend, reply: Reply)
    ensures
        claim_of(name, backend, reply) is Err <==> !valid_name(name) || reply is Refused || reply
            is NoHandle,
        claim_of(name, backend, reply) matches Ok(claim) ==> claim.name == name && claim.backend
            == backend && (claim.single <==> reply is Granted),
{
}

} // verus!
