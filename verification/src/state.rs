use vstd::prelude::*;

use vstd::array::array_as_slice;
use vstd::bytes::{spec_u64_from_le_bytes, spec_u64_to_le_bytes, u64_from_le_bytes, u64_to_le_bytes};
use vstd::slice::{slice_subrange, slice_to_vec};

use crate::error::FundraiserError;

verus! {

/// A 32-byte identity: a campaign owner, a contributor, a token type, or
/// the derived address of a record.
pub type Pubkey = [u8; 32];

/// Compares two identities byte for byte.
pub fn pubkey_eq(a: &Pubkey, b: &Pubkey) -> (r: bool)
    ensures
        r <==> a@ == b@,
{
    let mut i: usize = 0;
    while i < 32
        invariant
            i <= 32,
            forall|j: int| 0 <= j < i ==> a@[j] == b@[j],
        decreases 32 - i,
    {
        if a[i] != b[i] {
            return false;
        }
        i += 1;
    }
    proof {
        assert(a@ =~= b@);
    }
    true
}

/// A timestamp's fixed-width little-endian encoding: its two's-complement
/// bit pattern, laid out as a 64-bit unsigned value.
pub open spec fn spec_i64_to_le_bytes(x: i64) -> Seq<u8> {
    spec_u64_to_le_bytes(x as u64)
}

/// The timestamp a fixed-width little-endian encoding holds.
pub open spec fn spec_i64_from_le_bytes(s: Seq<u8>) -> i64 {
    spec_u64_from_le_bytes(s) as i64
}

pub proof fn lemma_i64_le_bytes_roundtrip(x: i64)
    ensures
        spec_i64_from_le_bytes(spec_i64_to_le_bytes(x)) == x,
{
    vstd::bytes::lemma_auto_spec_u64_to_from_le_bytes();
    assert(((x as u64) as i64) == x) by (bit_vector);
}

/// Copies a 32-byte identity out of a raw slice.
pub fn read_pubkey(data: &[u8], offset: usize) -> (r: Pubkey)
    requires
        offset + 32 <= data@.len(),
    ensures
        r@ == data@.subrange(offset as int, offset as int + 32),
{
    let n = data.len();
    let mut key: Pubkey = [0u8; 32];
    let mut i: usize = 0;
    while i < 32
        invariant
            i <= 32,
            offset + 32 <= n == data@.len(),
            forall|j: int| 0 <= j < i ==> key@[j] == data@[offset + j],
        decreases 32 - i,
    {
        key[i] = data[offset + i];
        i += 1;
    }
    proof {
        assert(key@ =~= data@.subrange(offset as int, offset as int + 32));
    }
    key
}

/// One campaign's persistent record: its target, timing, and running total.
#[derive(Clone, Copy, Debug, PartialEq, Eq)]
pub struct Fundraiser {
    /// Identity of the campaign creator; decides the refund-authority seed.
    pub owner: Pubkey,
    /// Identity of the token type accepted.
    pub mint: Pubkey,
    /// Target amount, in token base units.
    pub amount_to_raise: u64,
    /// Running total of accepted contributions, in token base units.
    pub current_amount: u64,
    /// Creation timestamp, in seconds.
    pub time_started: i64,
    /// Campaign length, in whole days.
    pub duration: u8,
    /// Derivation proof byte for this record's storage address.
    pub bump: u8,
}

impl Fundraiser {
    /// Purpose tag of this record type's derived addresses.
    pub const SEED: &'static str = "fundraiser";

    /// Size of this record's fixed storage layout, in bytes.
    pub const LEN: usize = 90;

    /// This record's fixed storage layout: owner, mint, target, running
    /// total, start time, duration, bump, each little-endian.
    pub open spec fn spec_bytes(self) -> Seq<u8> {
        self.owner@ + self.mint@ + spec_u64_to_le_bytes(self.amount_to_raise)
            + spec_u64_to_le_bytes(self.current_amount) + spec_i64_to_le_bytes(self.time_started)
            + seq![self.duration, self.bump]
    }

    /// Is `self` the record that raw storage `data` holds?
    pub open spec fn is_parse_of(self, data: Seq<u8>) -> bool {
        &&& data.len() == Fundraiser::LEN
        &&& self.owner@ == data.subrange(0, 32)
        &&& self.mint@ == data.subrange(32, 64)
        &&& self.amount_to_raise == spec_u64_from_le_bytes(data.subrange(64, 72))
        &&& self.current_amount == spec_u64_from_le_bytes(data.subrange(72, 80))
        &&& self.time_started == spec_i64_from_le_bytes(data.subrange(80, 88))
        &&& self.duration == data[88]
        &&& self.bump == data[89]
    }

    /// Serializes this record into its fixed storage layout.
    pub fn to_bytes(&self) -> (r: Vec<u8>)
        ensures
            r@ == self.spec_bytes(),
            r@.len() == Fundraiser::LEN,
    {
        let mut v: Vec<u8> = slice_to_vec(array_as_slice(&self.owner));
        let mut mint_bytes = slice_to_vec(array_as_slice(&self.mint));
        v.append(&mut mint_bytes);
        let mut target_bytes = u64_to_le_bytes(self.amount_to_raise);
        v.append(&mut target_bytes);
        let mut total_bytes = u64_to_le_bytes(self.current_amount);
        v.append(&mut total_bytes);
        let mut time_bytes = u64_to_le_bytes(#[verifier::truncate] (self.time_started as u64));
        v.append(&mut time_bytes);
        v.push(self.duration);
        v.push(self.bump);
        proof {
            assert(v@ =~= self.spec_bytes());
        }
        v
    }

    /// Loads a record from raw storage, rejecting any whose size does not
    /// match the fixed layout.
    pub fn from_bytes(data: &[u8]) -> (r: Result<Fundraiser, FundraiserError>)
        ensures
            r matches Ok(f) ==> f.is_parse_of(data@),
            r is Ok <==> data@.len() == Fundraiser::LEN,
            r is Err ==> r == Err::<Fundraiser, FundraiserError>(FundraiserError::InvalidAccountData),
    {
        if data.len() != Self::LEN {
            return Err(FundraiserError::InvalidAccountData);
        }
        let owner = read_pubkey(data, 0);
        let mint = read_pubkey(data, 32);
        let amount_to_raise = u64_from_le_bytes(slice_subrange(data, 64, 72));
        let current_amount = u64_from_le_bytes(slice_subrange(data, 72, 80));
        let time_started = #[verifier::truncate] (u64_from_le_bytes(
            slice_subrange(data, 80, 88),
        ) as i64);
        Ok(
            Fundraiser {
                owner,
                mint,
                amount_to_raise,
                current_amount,
                time_started,
                duration: data[88],
                bump: data[89],
            },
        )
    }
}

/// Loading inverts storing: the only record that parses back out of a
/// Fundraiser record's serialized bytes is that record itself.
pub proof fn lemma_fundraiser_bytes_roundtrip(f: Fundraiser, g: Fundraiser)
    requires
        g.is_parse_of(f.spec_bytes()),
    ensures
        g == f,
{
    vstd::bytes::lemma_auto_spec_u64_to_from_le_bytes();
    lemma_i64_le_bytes_roundtrip(f.time_started);
    let data = f.spec_bytes();
    assert(data.subrange(0, 32) =~= f.owner@);
    assert(data.subrange(32, 64) =~= f.mint@);
    assert(data.subrange(64, 72) =~= spec_u64_to_le_bytes(f.amount_to_raise));
    assert(data.subrange(72, 80) =~= spec_u64_to_le_bytes(f.current_amount));
    assert(data.subrange(80, 88) =~= spec_i64_to_le_bytes(f.time_started));
    assert(g.owner =~= f.owner);
    assert(g.mint =~= f.mint);
}

/// One party's persistent record of its cumulative deposit into one campaign.
#[derive(Clone, Copy, Debug, PartialEq, Eq, Structural)]
pub struct Contributor {
    /// The contributor's cumulative deposit, in token base units.
    pub amount: u64,
    /// Derivation proof byte for this record's storage address.
    pub bump: u8,
}

impl Contributor {
    /// Purpose tag of this record type's derived addresses.
    pub const SEED: &'static str = "contributor";

    /// Size of this record's fixed storage layout, in bytes.
    pub const LEN: usize = 9;

    /// This record's fixed storage layout: deposit, then bump.
    pub open spec fn spec_bytes(self) -> Seq<u8> {
        spec_u64_to_le_bytes(self.amount) + seq![self.bump]
    }

    /// What loading raw storage yields.
    pub open spec fn spec_parse(data: Seq<u8>) -> Result<Contributor, FundraiserError> {
        if data.len() == Contributor::LEN {
            Ok(Contributor { amount: spec_u64_from_le_bytes(data.subrange(0, 8)), bump: data[8] })
        } else {
            Err(FundraiserError::InvalidAccountData)
        }
    }

    /// Serializes this record into its fixed storage layout.
    pub fn to_bytes(&self) -> (r: Vec<u8>)
        ensures
            r@ == self.spec_bytes(),
            r@.len() == Contributor::LEN,
    {
        let mut v = u64_to_le_bytes(self.amount);
        v.push(self.bump);
        proof {
            assert(v@ =~= self.spec_bytes());
        }
        v
    }

    /// Loads a record from raw storage, rejecting any whose size does not
    /// match the fixed layout.
    pub fn from_bytes(data: &[u8]) -> (r: Result<Contributor, FundraiserError>)
        ensures
            r == Self::spec_parse(data@),
    {
        if data.len() != Self::LEN {
            return Err(FundraiserError::InvalidAccountData);
        }
        let amount = u64_from_le_bytes(slice_subrange(data, 0, 8));
        Ok(Contributor { amount, bump: data[8] })
    }
}

/// Loading inverts storing for Contributor records.
pub proof fn lemma_contributor_bytes_roundtrip(c: Contributor)
    ensures
        Contributor::spec_parse(c.spec_bytes()) == Ok::<Contributor, FundraiserError>(c),
{
    vstd::bytes::lemma_auto_spec_u64_to_from_le_bytes();
    assert(c.spec_bytes().subrange(0, 8) =~= spec_u64_to_le_bytes(c.amount));
}

/// The fields this module reads from a token-holding account: a snapshot
/// taken by the caller from the token subsystem's own account type.
#[derive(Clone, Copy, Debug, PartialEq, Eq)]
pub struct TokenAccountView {
    /// The account's recorded owner.
    pub owner: Pubkey,
    /// The account's current balance, in token base units.
    pub amount: u64,
}

} // verus!
