use vstd::prelude::*;

use vstd::bytes::{spec_u64_from_le_bytes, spec_u64_to_le_bytes, u64_from_le_bytes, u64_to_le_bytes};
use vstd::slice::slice_subrange;

use crate::error::FundraiserError;

verus! {

/// The operation a single-byte discriminant selects.
#[derive(Clone, Copy, Debug, PartialEq, Eq, Structural)]
pub enum ProgramInstruction {
    Initialize,
    Contribute,
    CheckContribution,
    Refund,
}

/// Which operation each discriminant byte selects; `None` for an unknown byte.
pub open spec fn spec_instruction_of(d: u8) -> Option<ProgramInstruction> {
    if d == 0 {
        Some(ProgramInstruction::Initialize)
    } else if d == 1 {
        Some(ProgramInstruction::Contribute)
    } else if d == 2 {
        Some(ProgramInstruction::CheckContribution)
    } else if d == 3 {
        Some(ProgramInstruction::Refund)
    } else {
        None
    }
}

impl ProgramInstruction {
    /// Decodes a discriminant byte; unknown bytes are rejected.
    pub fn try_from_byte(d: u8) -> (r: Result<ProgramInstruction, FundraiserError>)
        ensures
            r == match spec_instruction_of(d) {
                Some(ix) => Ok::<ProgramInstruction, FundraiserError>(ix),
                None => Err(FundraiserError::InvalidInstructionData),
            },
    {
        if d == 0 {
            Ok(ProgramInstruction::Initialize)
        } else if d == 1 {
            Ok(ProgramInstruction::Contribute)
        } else if d == 2 {
            Ok(ProgramInstruction::CheckContribution)
        } else if d == 3 {
            Ok(ProgramInstruction::Refund)
        } else {
            Err(FundraiserError::InvalidInstructionData)
        }
    }
}

/// Payload of a Contribute instruction, as a fixed-width little-endian record.
#[derive(Clone, Copy, Debug, Default, PartialEq, Eq, Structural)]
pub struct ContributeIxData {
    pub amount: u64,
    pub fundraiser_bump: u8,
    pub contributor_bump: u8,
}

impl ContributeIxData {
    /// Size of the encoded payload, in bytes.
    pub const LEN: usize = 10;

    /// The fixed-width little-endian encoding of this payload.
    pub open spec fn spec_bytes(self) -> Seq<u8> {
        spec_u64_to_le_bytes(self.amount) + seq![self.fundraiser_bump, self.contributor_bump]
    }

    /// What decoding a raw payload yields.
    pub open spec fn spec_parse(data: Seq<u8>) -> Result<ContributeIxData, FundraiserError> {
        if data.len() == ContributeIxData::LEN {
            Ok(
                ContributeIxData {
                    amount: spec_u64_from_le_bytes(data.subrange(0, 8)),
                    fundraiser_bump: data[8],
                    contributor_bump: data[9],
                },
            )
        } else {
            Err(FundraiserError::InvalidInstructionData)
        }
    }

    /// Decodes a raw payload, rejecting any whose size is not exact.
    pub fn parse(data: &[u8]) -> (r: Result<ContributeIxData, FundraiserError>)
        ensures
            r == Self::spec_parse(data@),
    {
        if data.len() != Self::LEN {
            return Err(FundraiserError::InvalidInstructionData);
        }
        let amount = u64_from_le_bytes(slice_subrange(data, 0, 8));
        Ok(ContributeIxData { amount, fundraiser_bump: data[8], contributor_bump: data[9] })
    }

    /// Encodes this payload into its fixed-width layout.
    pub fn to_bytes(&self) -> (r: Vec<u8>)
        ensures
            r@ == self.spec_bytes(),
            r@.len() == Self::LEN,
    {
        let mut v = u64_to_le_bytes(self.amount);
        v.push(self.fundraiser_bump);
        v.push(self.contributor_bump);
        proof {
            assert(v@ =~= self.spec_bytes());
        }
        v
    }
}

/// Decoding inverts encoding: a payload written in its fixed-width layout
/// reads back as itself.
pub proof fn lemma_contribute_ix_roundtrip(ix: ContributeIxData)
    ensures
        ContributeIxData::spec_parse(ix.spec_bytes()) == Ok::<
            ContributeIxData,
            FundraiserError,
        >(ix),
{
    vstd::bytes::lemma_auto_spec_u64_to_from_le_bytes();
    assert(ix.spec_bytes().subrange(0, 8) =~= spec_u64_to_le_bytes(ix.amount));
}

/// Payload of an Initialize instruction, as a fixed-width little-endian record.
#[derive(Clone, Copy, Debug, Default, PartialEq, Eq, Structural)]
pub struct InitializeIxData {
    pub amount_to_raise: u64,
    pub duration: u8,
    pub fundraiser_bump: u8,
}

impl InitializeIxData {
    /// Size of the encoded payload, in bytes.
    pub const LEN: usize = 10;

    /// The fixed-width little-endian encoding of this payload.
    pub open spec fn spec_bytes(self) -> Seq<u8> {
        spec_u64_to_le_bytes(self.amount_to_raise) + seq![self.duration, self.fundraiser_bump]
    }

    /// What decoding a raw payload yields.
    pub open spec fn spec_parse(data: Seq<u8>) -> Result<InitializeIxData, FundraiserError> {
        if data.len() == InitializeIxData::LEN {
            Ok(
                InitializeIxData {
                    amount_to_raise: spec_u64_from_le_bytes(data.subrange(0, 8)),
                    duration: data[8],
                    fundraiser_bump: data[9],
                },
            )
        } else {
            Err(FundraiserError::InvalidInstructionData)
        }
    }

    /// Decodes a raw payload, rejecting any whose size is not exact.
    pub fn parse(data: &[u8]) -> (r: Result<InitializeIxData, FundraiserError>)
        ensures
            r == Self::spec_parse(data@),
    {
        if data.len() != Self::LEN {
            return Err(FundraiserError::InvalidInstructionData);
        }
        let amount_to_raise = u64_from_le_bytes(slice_subrange(data, 0, 8));
        Ok(InitializeIxData { amount_to_raise, duration: data[8], fundraiser_bump: data[9] })
    }

    /// Encodes this payload into its fixed-width layout.
    pub fn to_bytes(&self) -> (r: Vec<u8>)
        ensures
            r@ == self.spec_bytes(),
            r@.len() == Self::LEN,
    {
        let mut v = u64_to_le_bytes(self.amount_to_raise);
        v.push(self.duration);
        v.push(self.fundraiser_bump);
        proof {
            assert(v@ =~= self.spec_bytes());
        }
        v
    }
}

/// Decoding inverts encoding for Initialize payloads.
pub proof fn lemma_initialize_ix_roundtrip(ix: InitializeIxData)
    ensures
        InitializeIxData::spec_parse(ix.spec_bytes()) == Ok::<
            InitializeIxData,
            FundraiserError,
        >(ix),
{
    vstd::bytes::lemma_auto_spec_u64_to_from_le_bytes();
    assert(ix.spec_bytes().subrange(0, 8) =~= spec_u64_to_le_bytes(ix.amount_to_raise));
}

/// A raw instruction, decoded: the discriminant byte routed to an operation
/// and its payload read from the remaining bytes.
#[derive(Clone, Copy, Debug, PartialEq, Eq, Structural)]
pub enum DecodedInstruction {
    Initialize(InitializeIxData),
    Contribute(ContributeIxData),
    CheckContribution,
    Refund,
}

/// What decoding a whole raw instruction yields: the first byte selects the
/// operation, the rest is that operation's payload.
pub open spec fn spec_parse_instruction(data: Seq<u8>) -> Result<
    DecodedInstruction,
    FundraiserError,
> {
    if data.len() == 0 {
        Err(FundraiserError::InvalidInstructionData)
    } else {
        let rest = data.subrange(1, data.len() as int);
        match spec_instruction_of(data[0]) {
            None => Err(FundraiserError::InvalidInstructionData),
            Some(ProgramInstruction::Initialize) => match InitializeIxData::spec_parse(rest) {
                Ok(ix) => Ok(DecodedInstruction::Initialize(ix)),
                Err(e) => Err(e),
            },
            Some(ProgramInstruction::Contribute) => match ContributeIxData::spec_parse(rest) {
                Ok(ix) => Ok(DecodedInstruction::Contribute(ix)),
                Err(e) => Err(e),
            },
            Some(ProgramInstruction::CheckContribution) => Ok(
                DecodedInstruction::CheckContribution,
            ),
            Some(ProgramInstruction::Refund) => Ok(DecodedInstruction::Refund),
        }
    }
}

/// Decodes a raw instruction: discriminant byte first, payload after.
pub fn parse_instruction(data: &[u8]) -> (r: Result<DecodedInstruction, FundraiserError>)
    ensures
        r == spec_parse_instruction(data@),
{
    if data.len() == 0 {
        return Err(FundraiserError::InvalidInstructionData);
    }
    let rest = slice_subrange(data, 1, data.len());
    match ProgramInstruction::try_from_byte(data[0]) {
        Err(e) => Err(e),
        Ok(ProgramInstruction::Initialize) => match InitializeIxData::parse(rest) {
            Ok(ix) => Ok(DecodedInstruction::Initialize(ix)),
            Err(e) => Err(e),
        },
        Ok(ProgramInstruction::Contribute) => match ContributeIxData::parse(rest) {
            Ok(ix) => Ok(DecodedInstruction::Contribute(ix)),
            Err(e) => Err(e),
        },
        Ok(ProgramInstruction::CheckContribution) => Ok(DecodedInstruction::CheckContribution),
        Ok(ProgramInstruction::Refund) => Ok(DecodedInstruction::Refund),
    }
}

} // verus!
