use fundraiser::error::FundraiserError;
use fundraiser::state::{Contributor, Fundraiser, Pubkey};

fn key(tag: u8) -> Pubkey {
    [tag; 32]
}

#[test]
fn contributor_record_round_trips() {
    let c = Contributor {
        amount: 100_000,
        bump: 251,
    };
    let bytes = c.to_bytes();
    assert_eq!(bytes.len(), Contributor::LEN);
    assert_eq!(Contributor::from_bytes(&bytes), Ok(c));
}

#[test]
fn contributor_record_layout_is_little_endian() {
    let bytes = [0xA0, 0x86, 0x01, 0, 0, 0, 0, 0, 17];
    assert_eq!(
        Contributor::from_bytes(&bytes),
        Ok(Contributor {
            amount: 100_000,
            bump: 17,
        })
    );
}

#[test]
fn contributor_record_with_wrong_size_is_rejected() {
    assert_eq!(
        Contributor::from_bytes(&[0; 8]),
        Err(FundraiserError::InvalidAccountData)
    );
    assert_eq!(
        Contributor::from_bytes(&[0; 10]),
        Err(FundraiserError::InvalidAccountData)
    );
}

#[test]
fn fundraiser_record_round_trips() {
    let f = Fundraiser {
        owner: key(1),
        mint: key(2),
        amount_to_raise: 1_000_000,
        current_amount: 123_456,
        time_started: 1_700_000_000,
        duration: 5,
        bump: 252,
    };
    let bytes = f.to_bytes();
    assert_eq!(bytes.len(), Fundraiser::LEN);
    assert_eq!(Fundraiser::from_bytes(&bytes), Ok(f));
}

#[test]
fn fundraiser_record_round_trips_with_negative_timestamp() {
    let f = Fundraiser {
        owner: key(9),
        mint: key(8),
        amount_to_raise: u64::MAX,
        current_amount: 0,
        time_started: -86_400,
        duration: 255,
        bump: 0,
    };
    assert_eq!(Fundraiser::from_bytes(&f.to_bytes()), Ok(f));
}

#[test]
fn fundraiser_record_with_wrong_size_is_rejected() {
    assert_eq!(
        Fundraiser::from_bytes(&[0; 89]),
        Err(FundraiserError::InvalidAccountData)
    );
    assert_eq!(
        Fundraiser::from_bytes(&[0; 91]),
        Err(FundraiserError::InvalidAccountData)
    );
}
