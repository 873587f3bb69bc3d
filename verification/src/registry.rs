//! The commitment registry: who registered which commitment.

use vstd::prelude::*;
use crate::assoc::{
    distinct_keys, lemma_absent_keys, lemma_to_map_absent, lemma_to_map_at, lemma_push_distinct,
    lemma_to_map_push, to_map,
};
use crate::hashing::bytes_equal;
use crate::types::{AccountId, Error};

verus! {

/// One registration: `who` registered `commitment`.
#[derive(Debug, Clone, Copy, PartialEq, Eq)]
pub struct RegistryEntry {
    pub commitment: [u8; 32],
    pub who: AccountId,
}

/// Maps each registered commitment to the identity that registered it.
/// Entries are only ever added: the first registration of a commitment
/// stays for good.
#[derive(Debug, PartialEq, Eq)]
pub struct CommitmentRegistry {
    entries: Vec<RegistryEntry>,
}

impl CommitmentRegistry {
    /// The entries as pairs of key and identity, in the order they were made.
    spec fn pairs(self) -> Seq<(Seq<u8>, AccountId)> {
        self.entries@.map_values(|e: RegistryEntry| (e.commitment@, e.who))
    }

    #[verifier::type_invariant]
    spec fn well_formed(self) -> bool {
        distinct_keys(self.pairs())
    }

    /// An empty registry.
    pub fn new() -> (registry: Self)
        ensures
            registry@ == Map::<Seq<u8>, AccountId>::empty(),
    {
        let registry = CommitmentRegistry { entries: Vec::new() };
        registry
    }

    /// The identity that registered `commitment`, if any did.
    pub fn lookup(&self, commitment: &[u8; 32]) -> (found: Option<AccountId>)
        ensures
            found == (if self@.contains_key(commitment@) {
                Some(self@[commitment@])
            } else {
                None
            }),
    {
        proof {
            use_type_invariant(self);
        }
        let mut i: usize = 0;
        while i < self.entries.len()
            invariant
                i <= self.entries.len(),
                distinct_keys(self.pairs()),
                forall|j: int| 0 <= j < i ==> (#[trigger] self.pairs()[j]).0 != commitment@,
            decreases self.entries.len() - i,
        {
            if bytes_equal(self.entries[i].commitment.as_slice(), commitment.as_slice()) {
                proof {
                    lemma_to_map_at(self.pairs(), i as int);
                }
                return Some(self.entries[i].who);
            }
            i += 1;
        }
        proof {
            lemma_to_map_absent(self.pairs(), commitment@);
        }
        None
    }

    /// Registers `commitment` for `who` unless it already has an entry,
    /// whoever made that entry.
    pub fn register(&mut self, commitment: [u8; 32], who: AccountId) -> (result: Result<(), Error>)
        ensures
            result == (if old(self)@.contains_key(commitment@) {
                Err::<(), Error>(Error::NameAlreadyRegistered)
            } else {
                Ok::<(), Error>(())
            }),
            result.is_ok() ==> final(self)@ == old(self)@.insert(commitment@, who),
            result.is_err() ==> *final(self) == *old(self),
    {
        match self.lookup(&commitment) {
            Some(_) => Err(Error::NameAlreadyRegistered),
            None => {
                proof {
                    use_type_invariant(&*self);
                    lemma_to_map_push(self.pairs(), commitment@, who);
                    lemma_absent_keys(self.pairs(), commitment@);
                }
                let ghost before = self.pairs();
                // The entries are taken out, extended and put back whole, so that
                // no two entries ever share a key.
                let mut entries: Vec<RegistryEntry> = Vec::new();
                std::mem::swap(&mut self.entries, &mut entries);
                entries.push(RegistryEntry { commitment, who });
                proof {
                    lemma_push_distinct(before, commitment@, who);
                    assert(entries@.map_values(|e: RegistryEntry| (e.commitment@, e.who))
                        =~= before.push((commitment@, who)));
                }
                self.entries = entries;
                Ok(())
            },
        }
    }
}

impl View for CommitmentRegistry {
    type V = Map<Seq<u8>, AccountId>;

    closed spec fn view(&self) -> Map<Seq<u8>, AccountId> {
        to_map(self.pairs())
    }
}

} // verus!
