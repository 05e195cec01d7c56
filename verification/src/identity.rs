//! Account identities: 32-byte addresses held as two 128-bit limbs, with a
//! total order (used to keep the signer registry sorted) and the byte
//! serialization used when an identity stands in an address-derivation seed.

use vstd::bytes::{spec_u128_to_le_bytes, u128_to_le_bytes};
use vstd::prelude::*;

verus! {

/// A 32-byte account address. `hi` holds the first 16 bytes of the address,
/// `lo` the last 16, each read as a little-endian integer, so two identities
/// are equal exactly when their limbs are.
#[derive(PartialEq, Eq, Structural, Clone, Copy, Debug)]
pub struct PublicIdentity {
    pub hi: u128,
    pub lo: u128,
}

/// Total order on identities: by `hi`, then by `lo`.
pub open spec fn id_le(a: PublicIdentity, b: PublicIdentity) -> bool {
    a.hi < b.hi || (a.hi == b.hi && a.lo <= b.lo)
}

/// The 32 bytes an identity contributes to an address-derivation seed.
pub open spec fn spec_identity_bytes(id: PublicIdentity) -> Seq<u8> {
    spec_u128_to_le_bytes(id.hi) + spec_u128_to_le_bytes(id.lo)
}

impl PublicIdentity {
    /// `self` comes no later than `other` in the (`hi`, `lo`) order.
    pub fn le(&self, other: &PublicIdentity) -> (r: bool)
        ensures
            r == id_le(*self, *other),
    {
        self.hi < other.hi || (self.hi == other.hi && self.lo <= other.lo)
    }

    /// The identity's 32-byte serialization.
    pub fn to_bytes(&self) -> (r: Vec<u8>)
        ensures
            r@ == spec_identity_bytes(*self),
            r@.len() == 32,
    {
        let mut r = u128_to_le_bytes(self.hi);
        let mut tail = u128_to_le_bytes(self.lo);
        r.append(&mut tail);
        r
    }
}

} // verus!
