//! Identities, errors and events of the name registrar.

use vstd::prelude::*;

verus! {

/// An authenticated participant. The registrar only ever compares identities.
pub type AccountId = u64;

/// Why an operation was rejected. A rejected operation changes nothing.
#[derive(Debug, Clone, Copy, PartialEq, Eq, Structural)]
pub enum Error {
    /// The commitment already has a registry entry.
    NameAlreadyRegistered,
    /// The commitment presented with a claim has no registry entry.
    NameNotRegistered,
    /// The commitment was registered by another identity than the claimant.
    NameNotRegisteredByYou,
    /// The name already has an owner.
    NameAlreadyClaimed,
    /// The digest of the revealed name differs from the commitment.
    NameNotMatchHash,
}

/// What a successful operation announces to the host.
#[derive(Debug, PartialEq, Eq)]
pub enum Event {
    /// The identity registered the commitment.
    Registered(AccountId, [u8; 32]),
    /// The identity claimed the name.
    Claimed(AccountId, Vec<u8>),
}

impl Clone for Event {
    /// A copy that announces the same thing.
    fn clone(&self) -> (copy: Self)
        ensures
            match *self {
                Event::Registered(who, commitment) => copy == Event::Registered(who, commitment),
                Event::Claimed(who, name) => {
                    copy matches Event::Claimed(w, n) && w == who && n@ == name@
                },
            },
    {
        match self {
            Event::Registered(who, commitment) => Event::Registered(*who, *commitment),
            Event::Claimed(who, name) => Event::Claimed(*who, name.clone()),
        }
    }
}

} // verus!
