//! The digest that binds a name to its commitment.

use vstd::prelude::*;
use crate::types::Error;

verus! {

/// The Keccak-256 digest of `data`: a sequence of 32 bytes.
pub uninterp spec fn keccak_256_digest(data: Seq<u8>) -> Seq<u8>;

/// Calls `sp_io::hashing::keccak_256`, which hashes any byte string and
/// cannot fail. The contract only names the digest: that equal inputs give
/// equal digests is all that is assumed of it.
#[verifier::external_body]
fn keccak_256(data: &[u8]) -> (out: [u8; 32])
    ensures
        out@ == keccak_256_digest(data@),
{
    sp_io::hashing::keccak_256(data)
}

/// The commitment that belongs to `name`.
pub fn digest(name: &[u8]) -> (out: [u8; 32])
    ensures
        out@ == keccak_256_digest(name@),
{
    keccak_256(name)
}

/// Whether two byte strings are equal.
pub fn bytes_equal(a: &[u8], b: &[u8]) -> (same: bool)
    ensures
        same == (a@ == b@),
{
    if a.len() != b.len() {
        return false;
    }
    let mut i: usize = 0;
    while i < a.len()
        invariant
            a@.len() == b@.len(),
            i <= a@.len(),
            forall|j: int| 0 <= j < i ==> a@[j] == b@[j],
        decreases a@.len() - i,
    {
        if a[i] != b[i] {
            return false;
        }
        i += 1;
    }
    assert(a@ =~= b@);
    true
}

/// Accepts a computed digest exactly when it equals the commitment that was
/// presented with the claim.
pub fn check_digest(computed: &[u8; 32], name_hash: &[u8; 32]) -> (result: Result<(), Error>)
    ensures
        result == (if computed@ == name_hash@ {
            Ok::<(), Error>(())
        } else {
            Err::<(), Error>(Error::NameNotMatchHash)
        }),
{
    if bytes_equal(computed.as_slice(), name_hash.as_slice()) {
        Ok(())
    } else {
        Err(Error::NameNotMatchHash)
    }
}

} // verus!
