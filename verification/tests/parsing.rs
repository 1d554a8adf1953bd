use fundraiser::error::FundraiserError;
use fundraiser::instruction::{
    parse_instruction, ContributeIxData, DecodedInstruction, InitializeIxData, ProgramInstruction,
};

#[test]
fn discriminants_route_to_the_four_operations() {
    assert_eq!(
        ProgramInstruction::try_from_byte(0),
        Ok(ProgramInstruction::Initialize)
    );
    assert_eq!(
        ProgramInstruction::try_from_byte(1),
        Ok(ProgramInstruction::Contribute)
    );
    assert_eq!(
        ProgramInstruction::try_from_byte(2),
        Ok(ProgramInstruction::CheckContribution)
    );
    assert_eq!(
        ProgramInstruction::try_from_byte(3),
        Ok(ProgramInstruction::Refund)
    );
}

#[test]
fn unknown_discriminant_is_rejected() {
    assert_eq!(
        ProgramInstruction::try_from_byte(4),
        Err(FundraiserError::InvalidInstructionData)
    );
    assert_eq!(
        ProgramInstruction::try_from_byte(255),
        Err(FundraiserError::InvalidInstructionData)
    );
}

#[test]
fn empty_instruction_is_rejected() {
    assert_eq!(
        parse_instruction(&[]),
        Err(FundraiserError::InvalidInstructionData)
    );
}

#[test]
fn contribute_payload_round_trips() {
    let ix = ContributeIxData {
        amount: 100_000,
        fundraiser_bump: 7,
        contributor_bump: 250,
    };
    let bytes = ix.to_bytes();
    assert_eq!(bytes.len(), ContributeIxData::LEN);
    assert_eq!(ContributeIxData::parse(&bytes), Ok(ix));
}

#[test]
fn contribute_payload_layout_is_little_endian() {
    let bytes = [0xA0, 0x86, 0x01, 0, 0, 0, 0, 0, 7, 9];
    assert_eq!(
        ContributeIxData::parse(&bytes),
        Ok(ContributeIxData {
            amount: 100_000,
            fundraiser_bump: 7,
            contributor_bump: 9,
        })
    );
}

#[test]
fn contribute_payload_with_wrong_size_is_rejected() {
    assert_eq!(
        ContributeIxData::parse(&[0; 9]),
        Err(FundraiserError::InvalidInstructionData)
    );
    assert_eq!(
        ContributeIxData::parse(&[0; 11]),
        Err(FundraiserError::InvalidInstructionData)
    );
}

#[test]
fn initialize_payload_round_trips() {
    let ix = InitializeIxData {
        amount_to_raise: 1_000_000,
        duration: 5,
        fundraiser_bump: 254,
    };
    let bytes = ix.to_bytes();
    assert_eq!(bytes.len(), InitializeIxData::LEN);
    assert_eq!(InitializeIxData::parse(&bytes), Ok(ix));
}

#[test]
fn whole_instruction_parses_discriminant_then_payload() {
    let mut data = vec![1u8];
    data.extend_from_slice(
        &ContributeIxData {
            amount: 42_000_000,
            fundraiser_bump: 3,
            contributor_bump: 4,
        }
        .to_bytes(),
    );
    assert_eq!(
        parse_instruction(&data),
        Ok(DecodedInstruction::Contribute(ContributeIxData {
            amount: 42_000_000,
            fundraiser_bump: 3,
            contributor_bump: 4,
        }))
    );

    assert_eq!(
        parse_instruction(&[2]),
        Ok(DecodedInstruction::CheckContribution)
    );
    assert_eq!(parse_instruction(&[3]), Ok(DecodedInstruction::Refund));
    assert_eq!(
        parse_instruction(&[9]),
        Err(FundraiserError::InvalidInstructionData)
    );
}
