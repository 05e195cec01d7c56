//! Capabilities a signer may hold, and the compact bitmask that carries a
//! subset of them. The mask is a dumb carrier: unknown bits are rejected only
//! by the settings invariant check, not here.

use vstd::prelude::*;

verus! {

/// The three capabilities a signer may hold.
#[derive(PartialEq, Eq, Structural, Clone, Copy, Debug)]
pub enum Permission {
    Initiate,
    Vote,
    Execute,
}

impl Permission {
    /// The bit this capability occupies in a mask.
    pub open spec fn spec_bit(self) -> u8 {
        match self {
            Permission::Initiate => 1,
            Permission::Vote => 2,
            Permission::Execute => 4,
        }
    }

    /// Executable form of `spec_bit`.
    pub fn bit(self) -> (r: u8)
        ensures
            r == self.spec_bit(),
    {
        match self {
            Permission::Initiate => 1,
            Permission::Vote => 2,
            Permission::Execute => 4,
        }
    }
}

/// A subset of the three capabilities, as a bitmask. Values with bits at or
/// above 8 carry no meaning and are rejected by the settings invariant check.
#[derive(PartialEq, Eq, Structural, Clone, Copy, Debug)]
pub struct Permissions {
    pub mask: u8,
}

/// The mask obtained by OR-ing the bits of the given capabilities.
pub open spec fn spec_mask_of(ps: Seq<Permission>) -> u8
    decreases ps.len(),
{
    if ps.len() == 0 {
        0
    } else {
        spec_mask_of(ps.drop_last()) | ps.last().spec_bit()
    }
}

impl Permissions {
    /// The mask grants capability `p`.
    pub open spec fn spec_has(self, p: Permission) -> bool {
        self.mask & p.spec_bit() != 0
    }

    /// Bitwise test for one capability.
    pub fn has(&self, permission: Permission) -> (r: bool)
        ensures
            r == self.spec_has(permission),
    {
        self.mask & permission.bit() != 0
    }

    /// OR-reduce a list of capabilities into a mask. The result grants
    /// exactly the capabilities that occur in the list.
    pub fn from_vec(permissions: &[Permission]) -> (r: Permissions)
        ensures
            r.mask == spec_mask_of(permissions@),
            forall|p: Permission| r.spec_has(p) == permissions@.contains(p),
    {
        let ghost all = permissions@;
        let mut mask: u8 = 0;
        let mut i: usize = 0;
        while i < permissions.len()
            invariant
                i <= all.len(),
                permissions@ == all,
                mask == spec_mask_of(all.take(i as int)),
            decreases all.len() - i,
        {
            proof {
                assert(all.take(i + 1).drop_last() =~= all.take(i as int));
            }
            mask = mask | permissions[i].bit();
            i = i + 1;
        }
        proof {
            assert(all.take(all.len() as int) =~= all);
            lemma_mask_of_grants(all);
        }
        Permissions { mask }
    }
}

/// OR-ing more bits into a mask grants a capability exactly when one of the
/// two parts granted it.
proof fn lemma_mask_grants_or(m1: u8, m2: u8, b: u8)
    ensures
        ((m1 | m2) & b != 0) == (m1 & b != 0 || m2 & b != 0),
{
    assert(((m1 | m2) & b != 0) == (m1 & b != 0 || m2 & b != 0)) by (bit_vector);
}

/// Two capability bits overlap exactly when they are the same capability.
proof fn lemma_bit_overlap(p: Permission, q: Permission)
    ensures
        (p.spec_bit() & q.spec_bit() != 0) == (p == q),
{
    let a = p.spec_bit();
    let b = q.spec_bit();
    if p == q {
        assert(a & b != 0) by (bit_vector)
            requires
                a == b && (a == 1 || a == 2 || a == 4),
        ;
    } else {
        assert(a != b);
        assert(a & b == 0) by (bit_vector)
            requires
                a != b && (a == 1 || a == 2 || a == 4) && (b == 1 || b == 2 || b == 4),
        ;
    }
}

/// The OR-reduced mask grants a capability exactly when the list holds it.
pub proof fn lemma_mask_of_grants(ps: Seq<Permission>)
    ensures
        forall|p: Permission|
            (#[trigger] (Permissions { mask: spec_mask_of(ps) }.spec_has(p))) == ps.contains(p),
    decreases ps.len(),
{
    if ps.len() == 0 {
        assert forall|p: Permission|
            (#[trigger] (Permissions { mask: spec_mask_of(ps) }.spec_has(p))) == ps.contains(
            p,
        ) by {
            let b = p.spec_bit();
            assert(0u8 & b == 0) by (bit_vector);
        }
    } else {
        lemma_mask_of_grants(ps.drop_last());
        assert forall|p: Permission|
            (#[trigger] (Permissions { mask: spec_mask_of(ps) }.spec_has(p))) == ps.contains(
            p,
        ) by {
            let rest = spec_mask_of(ps.drop_last());
            let lastbit = ps.last().spec_bit();
            let b = p.spec_bit();
            assert((Permissions { mask: rest }.spec_has(p)) == ps.drop_last().contains(p));
            lemma_mask_grants_or(rest, lastbit, b);
            lemma_bit_overlap(ps.last(), p);
            if ps.contains(p) {
                let i = choose|i: int| 0 <= i < ps.len() && ps[i] == p;
                if i < ps.len() - 1 {
                    assert(ps.drop_last()[i] == p);
                    assert(ps.drop_last().contains(p));
                }
            }
            if ps.drop_last().contains(p) {
                let i = choose|i: int|
                    0 <= i < ps.drop_last().len() && ps.drop_last()[i] == p;
                assert(ps[i] == p);
                assert(ps.contains(p));
            }
            if p == ps.last() {
                assert(ps[ps.len() - 1] == p);
                assert(ps.contains(p));
            }
        }
    }
}

} // verus!
