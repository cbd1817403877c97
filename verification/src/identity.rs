//! Plain-value identities and fingerprints.
//!
//! The external runtime addresses every account by a 32-byte public key and
//! every asset carries a 32-byte content hash. Both are modelled here as
//! fixed-size byte arrays, with verified equality and null tests.

use vstd::prelude::*;

verus! {

/// A 32-byte identity: an account address as the runtime presents it.
pub type Identity = [u8; 32];

/// A 32-byte content fingerprint (a SHA-256 digest of an asset's traits).
pub type DnaHash = [u8; 32];

/// The all-zero identity, used as the "null" / unset value.
pub open spec fn is_null_identity(a: Identity) -> bool {
    forall|k: int| 0 <= k < 32 ==> a@[k] == 0u8
}

/// Byte-wise equality of two 32-byte values.
pub fn bytes32_eq(a: &[u8; 32], b: &[u8; 32]) -> (r: bool)
    ensures
        r == (*a == *b),
        r == (a@ == b@),
{
    for i in 0..32
        invariant
            forall|k: int| 0 <= k < i ==> a@[k] == b@[k],
    {
        if a[i] != b[i] {
            return false;
        }
    }
    assert(a@ =~= b@);
    assert(*a =~= *b);
    true
}

/// Whether an identity is the all-zero (null) identity.
pub fn identity_is_null(a: &Identity) -> (r: bool)
    ensures
        r == is_null_identity(*a),
{
    for i in 0..32
        invariant
            forall|k: int| 0 <= k < i ==> a@[k] == 0u8,
    {
        if a[i] != 0 {
            return false;
        }
    }
    true
}

} // verus!
