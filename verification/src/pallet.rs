//! The registrar itself: the two stores and the two operations on them.

use vstd::prelude::*;
use crate::hashing::{check_digest, digest, keccak_256_digest};
use crate::model::{
    claim_outcome, claim_outcome_with, claim_step, claim_step_with, initial, register_outcome,
    register_step, State,
};
use crate::ownership::OwnershipTable;
use crate::registry::CommitmentRegistry;
use crate::types::{AccountId, Error, Event};

verus! {

/// The name registrar. Its stores change only through `register_name` and
/// `claim_name`, and an operation that is rejected changes nothing.
#[derive(Debug, PartialEq, Eq)]
pub struct Pallet {
    registry: CommitmentRegistry,
    owners: OwnershipTable,
}

impl View for Pallet {
    type V = State;

    closed spec fn view(&self) -> State {
        State { registered: self.registry@, owned: self.owners@ }
    }
}

impl Pallet {
    /// A registrar with nothing registered and nothing owned.
    pub fn new() -> (pallet: Self)
        ensures
            pallet@ == initial(),
    {
        Pallet { registry: CommitmentRegistry::new(), owners: OwnershipTable::new() }
    }

    /// The identity that registered `commitment`, if any did.
    pub fn registry_owner_of(&self, commitment: &[u8; 32]) -> (found: Option<AccountId>)
        ensures
            found == (if self@.registered.contains_key(commitment@) {
                Some(self@.registered[commitment@])
            } else {
                None
            }),
    {
        self.registry.lookup(commitment)
    }

    /// The owner of `name`, if it has one.
    pub fn name_owner_of(&self, name: &Vec<u8>) -> (found: Option<AccountId>)
        ensures
            found == (if self@.owned.contains_key(name@) {
                Some(self@.owned[name@])
            } else {
                None
            }),
    {
        self.owners.lookup(name)
    }

    /// Registers the commitment `name_hash` for `who`. The first registration
    /// of a commitment wins; any later one is rejected, whoever asks.
    pub fn register_name(
        &mut self,
        who: AccountId,
        name_hash: [u8; 32],
    ) -> (result: Result<Event, Error>)
        ensures
            result == (match register_outcome(old(self)@, name_hash@) {
                Ok(()) => Ok::<Event, Error>(Event::Registered(who, name_hash)),
                Err(e) => Err::<Event, Error>(e),
            }),
            final(self)@ == register_step(old(self)@, who, name_hash@),
            result.is_err() ==> *final(self) == *old(self),
    {
        match self.registry.register(name_hash, who) {
            Ok(()) => Ok(Event::Registered(who, name_hash)),
            Err(e) => Err(e),
        }
    }

    /// Checks a revealed name against the commitment presented with it.
    pub fn validate_name(name: &Vec<u8>, name_hash: &[u8; 32]) -> (result: Result<(), Error>)
        ensures
            result == (if keccak_256_digest(name@) == name_hash@ {
                Ok::<(), Error>(())
            } else {
                Err::<(), Error>(Error::NameNotMatchHash)
            }),
    {
        let computed = digest(name.as_slice());
        check_digest(&computed, name_hash)
    }

    /// What remains of a claim once the digest of `name` is known to equal
    /// `name_hash`: `who` must have registered `name_hash`, and the name must
    /// have no owner yet.
    fn claim_validated(
        &mut self,
        who: AccountId,
        name: Vec<u8>,
        name_hash: [u8; 32],
    ) -> (result: Result<Event, Error>)
        ensures
            result == (match claim_outcome_with(old(self)@, who, name@, name_hash@, name_hash@) {
                Ok(()) => Ok::<Event, Error>(Event::Claimed(who, name)),
                Err(e) => Err::<Event, Error>(e),
            }),
            final(self)@ == claim_step_with(old(self)@, who, name@, name_hash@, name_hash@),
            result.is_err() ==> *final(self) == *old(self),
    {
        match self.registry.lookup(&name_hash) {
            None => {
                return Err(Error::NameNotRegistered);
            },
            Some(registrant) => {
                if registrant != who {
                    return Err(Error::NameNotRegisteredByYou);
                }
            },
        }
        match self.owners.claim_internal(name.clone(), who) {
            Ok(()) => Ok(Event::Claimed(who, name)),
            Err(e) => Err(e),
        }
    }

    /// Claims `name` for `who`, where `computed` is the digest of `name`.
    /// The claim is accepted when the digest equals `name_hash`, `who`
    /// registered `name_hash`, and the name has no owner yet.
    pub fn claim_with_digest(
        &mut self,
        who: AccountId,
        name: Vec<u8>,
        name_hash: [u8; 32],
        computed: [u8; 32],
    ) -> (result: Result<Event, Error>)
        ensures
            result == (match claim_outcome_with(old(self)@, who, name@, name_hash@, computed@) {
                Ok(()) => Ok::<Event, Error>(Event::Claimed(who, name)),
                Err(e) => Err::<Event, Error>(e),
            }),
            final(self)@ == claim_step_with(old(self)@, who, name@, name_hash@, computed@),
            result.is_err() ==> *final(self) == *old(self),
    {
        match check_digest(&computed, &name_hash) {
            Ok(()) => self.claim_validated(who, name, name_hash),
            Err(e) => Err(e),
        }
    }

    /// Reveals `name` and claims it for `who` under the commitment
    /// `name_hash`.
    pub fn claim_name(
        &mut self,
        who: AccountId,
        name: Vec<u8>,
        name_hash: [u8; 32],
    ) -> (result: Result<Event, Error>)
        ensures
            result == (match claim_outcome(old(self)@, who, name@, name_hash@) {
                Ok(()) => Ok::<Event, Error>(Event::Claimed(who, name)),
                Err(e) => Err::<Event, Error>(e),
            }),
            final(self)@ == claim_step(old(self)@, who, name@, name_hash@),
            result.is_err() ==> *final(self) == *old(self),
    {
        match Self::validate_name(&name, &name_hash) {
            Ok(()) => self.claim_validated(who, name, name_hash),
            Err(e) => Err(e),
        }
    }
}

} // verus!
