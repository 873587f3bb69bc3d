//! The ownership table: who owns which name.

use vstd::prelude::*;
use crate::assoc::{
    distinct_keys, lemma_absent_keys, lemma_push_distinct, lemma_to_map_absent, lemma_to_map_at,
    lemma_to_map_push, to_map,
};
use crate::hashing::bytes_equal;
use crate::types::{AccountId, Error};

verus! {

/// One claim: `who` owns `name`.
#[derive(Debug, PartialEq, Eq)]
pub struct OwnershipEntry {
    pub name: Vec<u8>,
    pub who: AccountId,
}

/// Maps each claimed name to its owner. Entries are only ever added: the
/// first claim of a name stays for good.
#[derive(Debug, PartialEq, Eq)]
pub struct OwnershipTable {
    entries: Vec<OwnershipEntry>,
}

impl OwnershipTable {
    /// The entries as pairs of key and identity, in the order they were made.
    spec fn pairs(self) -> Seq<(Seq<u8>, AccountId)> {
        self.entries@.map_values(|e: OwnershipEntry| (e.name@, e.who))
    }

    #[verifier::type_invariant]
    spec fn well_formed(self) -> bool {
        distinct_keys(self.pairs())
    }

    /// An empty table.
    pub fn new() -> (table: Self)
        ensures
            table@ == Map::<Seq<u8>, AccountId>::empty(),
    {
        let table = OwnershipTable { entries: Vec::new() };
        table
    }

    /// The owner of `name`, if it has one.
    pub fn lookup(&self, name: &Vec<u8>) -> (found: Option<AccountId>)
        ensures
            found == (if self@.contains_key(name@) {
                Some(self@[name@])
            } else {
                None
            }),
    {
        proof {
            use_type_invariant(self);
        }
        let mut i: usize = 0;
        while i < self.entries.len()
            invariant
                i <= self.entries.len(),
                distinct_keys(self.pairs()),
                forall|j: int| 0 <= j < i ==> (#[trigger] self.pairs()[j]).0 != name@,
            decreases self.entries.len() - i,
        {
            if bytes_equal(self.entries[i].name.as_slice(), name.as_slice()) {
                proof {
                    lemma_to_map_at(self.pairs(), i as int);
                }
                return Some(self.entries[i].who);
            }
            i += 1;
        }
        proof {
            lemma_to_map_absent(self.pairs(), name@);
        }
        None
    }

    /// Makes `who` the owner of `name` unless the name already has an owner.
    pub fn claim_internal(&mut self, name: Vec<u8>, who: AccountId) -> (result: Result<(), Error>)
        ensures
            result == (if old(self)@.contains_key(name@) {
                Err::<(), Error>(Error::NameAlreadyClaimed)
            } else {
                Ok::<(), Error>(())
            }),
            result.is_ok() ==> final(self)@ == old(self)@.insert(name@, who),
            result.is_err() ==> *final(self) == *old(self),
    {
        match self.lookup(&name) {
            Some(_) => Err(Error::NameAlreadyClaimed),
            None => {
                proof {
                    use_type_invariant(&*self);
                    lemma_to_map_push(self.pairs(), name@, who);
                    lemma_absent_keys(self.pairs(), name@);
                }
                let ghost before = self.pairs();
                let ghost key = name@;
                // The entries are taken out, extended and put back whole, so that
                // no two entries ever share a key.
                let mut entries: Vec<OwnershipEntry> = Vec::new();
                std::mem::swap(&mut self.entries, &mut entries);
                entries.push(OwnershipEntry { name, who });
                proof {
                    lemma_push_distinct(before, key, who);
                    assert(entries@.map_values(|e: OwnershipEntry| (e.name@, e.who))
                        =~= before.push((key, who)));
                }
                self.entries = entries;
                Ok(())
            },
        }
    }
}

impl View for OwnershipTable {
    type V = Map<Seq<u8>, AccountId>;

    closed spec fn view(&self) -> Map<Seq<u8>, AccountId> {
        to_map(self.pairs())
    }
}

} // verus!
