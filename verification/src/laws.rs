//! What holds of the registrar in every state and after every sequence of
//! calls.

use vstd::prelude::*;
use crate::hashing::keccak_256_digest;
use crate::model::{
    claim_outcome, claim_step, initial, outcome, register_outcome, register_step, run, step, Call,
    State,
};
use crate::types::{AccountId, Error};

verus! {

/// Every owned name is owned by the identity that registered the digest of
/// the name.
pub open spec fn owners_are_registrants(s: State) -> bool {
    forall|name: Seq<u8>| #[trigger]
        s.owned.contains_key(name) ==> {
            &&& s.registered.contains_key(keccak_256_digest(name))
            &&& s.registered[keccak_256_digest(name)] == s.owned[name]
        }
}

/// The call is not a registration of `commitment`.
pub open spec fn is_not_registration_of(call: Call, commitment: Seq<u8>) -> bool {
    match call {
        Call::Register { who, commitment: c } => c != commitment,
        Call::Claim { who, name, commitment: c } => true,
    }
}

/// A rejected call leaves the state as it was.
pub proof fn lemma_rejected_call_changes_nothing(s: State, call: Call)
    requires
        outcome(s, call).is_err(),
    ensures
        step(s, call) == s,
{
}

/// No call removes or rewrites an entry of either store.
pub proof fn lemma_step_keeps_entries(s: State, call: Call)
    ensures
        s.registered.submap_of(step(s, call).registered),
        s.owned.submap_of(step(s, call).owned),
{
}

/// No sequence of calls removes or rewrites an entry of either store.
pub proof fn lemma_run_keeps_entries(s: State, calls: Seq<Call>)
    ensures
        s.registered.submap_of(run(s, calls).registered),
        s.owned.submap_of(run(s, calls).owned),
    decreases calls.len(),
{
    if calls.len() > 0 {
        lemma_run_keeps_entries(s, calls.drop_last());
        lemma_step_keeps_entries(run(s, calls.drop_last()), calls.last());
    }
}

/// A commitment is registered at most once: after a successful registration
/// the entry stays as it is whatever calls follow, and every further
/// registration of the commitment, by any identity, is rejected with
/// `NameAlreadyRegistered` and changes nothing.
pub proof fn lemma_commitment_registered_once(
    s: State,
    who: AccountId,
    commitment: Seq<u8>,
    later: Seq<Call>,
    again: AccountId,
)
    requires
        register_outcome(s, commitment).is_ok(),
    ensures
        ({
            let t = run(register_step(s, who, commitment), later);
            &&& t.registered.contains_key(commitment)
            &&& t.registered[commitment] == who
            &&& register_outcome(t, commitment) == Err::<(), Error>(Error::NameAlreadyRegistered)
            &&& register_step(t, again, commitment) == t
        }),
{
    let first = register_step(s, who, commitment);
    lemma_run_keeps_entries(first, later);
    assert(first.registered.dom().contains(commitment));
}

/// A name is claimed at most once: after a successful claim the name keeps
/// its owner whatever calls follow, and every further claim of the name is
/// rejected and changes nothing. The further claim fails with
/// `NameAlreadyClaimed` whenever it passes the two earlier checks, that is,
/// when it presents the digest of the name and comes from the owner; a wrong
/// commitment gives `NameNotMatchHash` and another claimant
/// `NameNotRegisteredByYou`.
pub proof fn lemma_name_claimed_once(
    s: State,
    who: AccountId,
    name: Seq<u8>,
    commitment: Seq<u8>,
    later: Seq<Call>,
    again: AccountId,
    presented: Seq<u8>,
)
    requires
        claim_outcome(s, who, name, commitment).is_ok(),
    ensures
        ({
            let t = run(claim_step(s, who, name, commitment), later);
            &&& t.owned.contains_key(name)
            &&& t.owned[name] == who
            &&& claim_step(t, again, name, presented) == t
            &&& claim_outcome(t, again, name, presented) == Err::<(), Error>(
                if presented != keccak_256_digest(name) {
                    Error::NameNotMatchHash
                } else if again != who {
                    Error::NameNotRegisteredByYou
                } else {
                    Error::NameAlreadyClaimed
                },
            )
        }),
{
    let first = claim_step(s, who, name, commitment);
    let t = run(first, later);
    lemma_run_keeps_entries(first, later);
    assert(first.owned.dom().contains(name) && first.owned[name] == who);
    assert(first.registered.dom().contains(commitment) && first.registered[commitment] == who);
}

/// A claim is accepted only if the commitment it presents is the digest of
/// the name, the claimant registered that commitment, and the name had no
/// owner; and whenever the commitment is not the digest of the name the
/// claim fails with `NameNotMatchHash`, whatever the stores hold.
pub proof fn lemma_claim_bound_to_digest(
    s: State,
    who: AccountId,
    name: Seq<u8>,
    commitment: Seq<u8>,
)
    ensures
        claim_outcome(s, who, name, commitment).is_ok() ==> {
            &&& keccak_256_digest(name) == commitment
            &&& s.registered.contains_key(commitment)
            &&& s.registered[commitment] == who
            &&& !s.owned.contains_key(name)
        },
        keccak_256_digest(name) != commitment ==> claim_outcome(s, who, name, commitment) == Err::<
            (),
            Error,
        >(Error::NameNotMatchHash),
{
}

/// A commitment belongs to the identity that registered it: whatever calls
/// follow, a claim that presents it for the name it is the digest of, made by
/// any other identity, fails with `NameNotRegisteredByYou` and changes
/// nothing.
pub proof fn lemma_claim_bound_to_registrant(
    s: State,
    registrant: AccountId,
    later: Seq<Call>,
    claimant: AccountId,
    name: Seq<u8>,
    commitment: Seq<u8>,
)
    requires
        s.registered.contains_key(commitment),
        s.registered[commitment] == registrant,
        claimant != registrant,
        keccak_256_digest(name) == commitment,
    ensures
        claim_outcome(run(s, later), claimant, name, commitment) == Err::<(), Error>(
            Error::NameNotRegisteredByYou,
        ),
        claim_step(run(s, later), claimant, name, commitment) == run(s, later),
{
    lemma_run_keeps_entries(s, later);
}

/// A commitment stays unregistered as long as no call registers it.
pub proof fn lemma_unregistered_until_registered(s: State, calls: Seq<Call>, commitment: Seq<u8>)
    requires
        !s.registered.contains_key(commitment),
        forall|i: int|
            0 <= i < calls.len() ==> is_not_registration_of(#[trigger] calls[i], commitment),
    ensures
        !run(s, calls).registered.contains_key(commitment),
    decreases calls.len(),
{
    if calls.len() > 0 {
        lemma_unregistered_until_registered(s, calls.drop_last(), commitment);
    }
}

/// Nothing can be claimed before it is registered: if no call so far has
/// registered the commitment, a claim that presents it for the name it is the
/// digest of fails with `NameNotRegistered` and changes nothing.
pub proof fn lemma_no_claim_before_registration(
    calls: Seq<Call>,
    who: AccountId,
    name: Seq<u8>,
    commitment: Seq<u8>,
)
    requires
        forall|i: int|
            0 <= i < calls.len() ==> is_not_registration_of(#[trigger] calls[i], commitment),
        keccak_256_digest(name) == commitment,
    ensures
        claim_outcome(run(initial(), calls), who, name, commitment) == Err::<(), Error>(
            Error::NameNotRegistered,
        ),
        claim_step(run(initial(), calls), who, name, commitment) == run(initial(), calls),
{
    lemma_unregistered_until_registered(initial(), calls, commitment);
}

/// Each call keeps every owner the registrant of the name's digest.
pub proof fn lemma_step_keeps_owners_registrants(s: State, call: Call)
    requires
        owners_are_registrants(s),
    ensures
        owners_are_registrants(step(s, call)),
{
}

/// From the empty registrar on, every owner of a name is the identity that
/// registered the digest of that name.
pub proof fn lemma_owners_are_registrants(calls: Seq<Call>)
    ensures
        owners_are_registrants(run(initial(), calls)),
    decreases calls.len(),
{
    if calls.len() > 0 {
        lemma_owners_are_registrants(calls.drop_last());
        lemma_step_keeps_owners_registrants(run(initial(), calls.drop_last()), calls.last());
    }
}

} // verus!
