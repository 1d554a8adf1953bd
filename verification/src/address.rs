use vstd::prelude::*;

verus! {

/// A storage address, derived deterministically from a purpose tag and the
/// owning identities rather than chosen by the caller.
///
/// The external runtime realizes such an address as a hash of the seed
/// material plus the bump byte; this module models it as the seed material
/// itself, so that the binding between a record's address and its logical
/// key — the property the hash is trusted for — holds by construction.
pub enum DerivedAddress {
    /// Address of a campaign's Fundraiser record: tagged by the record
    /// type's purpose seed and the campaign creator's identity.
    FundraiserRecord { maker: Seq<u8>, bump: u8 },
    /// Address of a (campaign, contributor) pair's Contributor record:
    /// tagged by the purpose seed, the campaign's derived address, and the
    /// contributor's identity.
    ContributorRecord { fundraiser: Seq<u8>, contributor: Seq<u8>, bump: u8 },
}

/// Where a campaign creator's Fundraiser record lives.
pub open spec fn fundraiser_address(maker: Seq<u8>, bump: u8) -> DerivedAddress {
    DerivedAddress::FundraiserRecord { maker, bump }
}

/// Where a (campaign, contributor) pair's Contributor record lives.
pub open spec fn contributor_address(
    fundraiser: Seq<u8>,
    contributor: Seq<u8>,
    bump: u8,
) -> DerivedAddress {
    DerivedAddress::ContributorRecord { fundraiser, contributor, bump }
}

/// Derivation is collision-free: distinct logical keys never share a
/// storage address, and the two record types never collide with each
/// other. A caller therefore cannot substitute an attacker-controlled or
/// colliding record for the one tied to its own identity.
pub proof fn lemma_derivation_collision_free(
    m1: Seq<u8>,
    b1: u8,
    m2: Seq<u8>,
    b2: u8,
    f1: Seq<u8>,
    c1: Seq<u8>,
    d1: u8,
    f2: Seq<u8>,
    c2: Seq<u8>,
    d2: u8,
)
    ensures
        fundraiser_address(m1, b1) == fundraiser_address(m2, b2) ==> m1 == m2 && b1 == b2,
        contributor_address(f1, c1, d1) == contributor_address(f2, c2, d2) ==> f1 == f2 && c1
            == c2 && d1 == d2,
        fundraiser_address(m1, b1) != contributor_address(f1, c1, d1),
{
}

} // verus!
