//! The registrar as a state machine over two maps. The contracts of the
//! executable operations are stated against these functions.

use vstd::prelude::*;
use crate::hashing::keccak_256_digest;
use crate::types::{AccountId, Error};

verus! {

/// What the registrar remembers: who registered each commitment, and who
/// owns each name.
pub struct State {
    pub registered: Map<Seq<u8>, AccountId>,
    pub owned: Map<Seq<u8>, AccountId>,
}

/// A request to the registrar.
pub enum Call {
    Register { who: AccountId, commitment: Seq<u8> },
    Claim { who: AccountId, name: Seq<u8>, commitment: Seq<u8> },
}

/// The state in which nothing is registered and nothing is owned.
pub open spec fn initial() -> State {
    State { registered: Map::empty(), owned: Map::empty() }
}

/// Whether registering `commitment` is accepted in state `s`.
pub open spec fn register_outcome(s: State, commitment: Seq<u8>) -> Result<(), Error> {
    if s.registered.contains_key(commitment) {
        Err(Error::NameAlreadyRegistered)
    } else {
        Ok(())
    }
}

/// The state after `who` asked to register `commitment` in state `s`.
pub open spec fn register_step(s: State, who: AccountId, commitment: Seq<u8>) -> State {
    if register_outcome(s, commitment).is_ok() {
        State { registered: s.registered.insert(commitment, who), owned: s.owned }
    } else {
        s
    }
}

/// Whether a claim is accepted in state `s`, where `computed` is the digest
/// of the revealed name. The digest is compared first, then the registrant,
/// then the ownership of the name.
pub open spec fn claim_outcome_with(
    s: State,
    who: AccountId,
    name: Seq<u8>,
    commitment: Seq<u8>,
    computed: Seq<u8>,
) -> Result<(), Error> {
    if computed != commitment {
        Err(Error::NameNotMatchHash)
    } else if !s.registered.contains_key(commitment) {
        Err(Error::NameNotRegistered)
    } else if s.registered[commitment] != who {
        Err(Error::NameNotRegisteredByYou)
    } else if s.owned.contains_key(name) {
        Err(Error::NameAlreadyClaimed)
    } else {
        Ok(())
    }
}

/// The state after a claim in state `s`, where `computed` is the digest of
/// the revealed name.
pub open spec fn claim_step_with(
    s: State,
    who: AccountId,
    name: Seq<u8>,
    commitment: Seq<u8>,
    computed: Seq<u8>,
) -> State {
    if claim_outcome_with(s, who, name, commitment, computed).is_ok() {
        State { registered: s.registered, owned: s.owned.insert(name, who) }
    } else {
        s
    }
}

/// Whether `who` may claim `name` under `commitment` in state `s`.
pub open spec fn claim_outcome(
    s: State,
    who: AccountId,
    name: Seq<u8>,
    commitment: Seq<u8>,
) -> Result<(), Error> {
    claim_outcome_with(s, who, name, commitment, keccak_256_digest(name))
}

/// The state after `who` asked to claim `name` under `commitment`.
pub open spec fn claim_step(s: State, who: AccountId, name: Seq<u8>, commitment: Seq<u8>) -> State {
    claim_step_with(s, who, name, commitment, keccak_256_digest(name))
}

/// Whether `call` is accepted in state `s`.
pub open spec fn outcome(s: State, call: Call) -> Result<(), Error> {
    match call {
        Call::Register { who, commitment } => register_outcome(s, commitment),
        Call::Claim { who, name, commitment } => claim_outcome(s, who, name, commitment),
    }
}

/// The state after `call` was made in state `s`.
pub open spec fn step(s: State, call: Call) -> State {
    match call {
        Call::Register { who, commitment } => register_step(s, who, commitment),
        Call::Claim { who, name, commitment } => claim_step(s, who, name, commitment),
    }
}

/// The state after the calls were made one after the other, starting in `s`.
pub open spec fn run(s: State, calls: Seq<Call>) -> State
    decreases calls.len(),
{
    if calls.len() == 0 {
        s
    } else {
        step(run(s, calls.drop_last()), calls.last())
    }
}

} // verus!
