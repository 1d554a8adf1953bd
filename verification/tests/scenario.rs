//! A campaign walked through its whole life: a contribution inside the
//! window, an oversized one rejected, the window closing, and a refund
//! after the target was missed.

use fundraiser::constants::SECONDS_TO_DAYS;
use fundraiser::contribute::{process_contribute, ContributeAccounts};
use fundraiser::error::FundraiserError;
use fundraiser::initialize::{process_initialize, InitializeAccounts};
use fundraiser::instruction::{ContributeIxData, InitializeIxData};
use fundraiser::refund::{process_refund, RefundAccounts};
use fundraiser::state::{Pubkey, TokenAccountView};

fn key(tag: u8) -> Pubkey {
    [tag; 32]
}

#[test]
fn a_campaign_that_misses_its_target() {
    let maker = key(1);
    let mint = key(2);
    let contributor = key(3);
    let fundraiser_key = key(4);

    let fundraiser = process_initialize(
        &InitializeAccounts {
            maker,
            mint,
            fundraiser_exists: false,
            now: 0,
        },
        &InitializeIxData {
            amount_to_raise: 1_000_000,
            duration: 5,
            fundraiser_bump: 254,
        },
    )
    .unwrap();
    assert_eq!(fundraiser.current_amount, 0);

    let day1 = SECONDS_TO_DAYS;
    let accounts = |fundraiser, record, vault_amount, now| ContributeAccounts {
        contributor_key: contributor,
        contributor_is_signer: true,
        mint_decimals: 5,
        fundraiser_key,
        fundraiser,
        contributor_record: record,
        contributor_ata: TokenAccountView {
            owner: contributor,
            amount: 1_000_000,
        },
        vault: TokenAccountView {
            owner: fundraiser_key,
            amount: vault_amount,
        },
        now,
    };

    // Day 1: a contribution of 100_000 succeeds and raises the total.
    let effect = process_contribute(
        &accounts(fundraiser, None, 0, day1),
        &ContributeIxData {
            amount: 100_000,
            fundraiser_bump: 254,
            contributor_bump: 251,
        },
    )
    .unwrap();
    assert_eq!(effect.fundraiser.current_amount, 100_000);
    assert!(effect.record_created);

    // Day 1: a contribution of 999_999 exceeds the cap and fails.
    assert_eq!(
        process_contribute(
            &accounts(
                effect.fundraiser,
                Some(effect.contributor_record),
                100_000,
                day1
            ),
            &ContributeIxData {
                amount: 999_999,
                fundraiser_bump: 254,
                contributor_bump: 251,
            },
        ),
        Err(FundraiserError::ContributionTooBig)
    );

    // Day 6: the window has closed to contributions.
    let day6 = 6 * SECONDS_TO_DAYS;
    assert_eq!(
        process_contribute(
            &accounts(
                effect.fundraiser,
                Some(effect.contributor_record),
                100_000,
                day6
            ),
            &ContributeIxData {
                amount: 100_000,
                fundraiser_bump: 254,
                contributor_bump: 251,
            },
        ),
        Err(FundraiserError::FundraiserEnded)
    );

    // Day 6, escrow short of the target: the contributor is refunded in full
    // and their record is removed.
    let refund = process_refund(&RefundAccounts {
        contributor_key: contributor,
        contributor_is_signer: true,
        fundraiser_key,
        fundraiser: effect.fundraiser,
        contributor_record: Some(effect.contributor_record),
        vault: TokenAccountView {
            owner: fundraiser_key,
            amount: 100_000,
        },
        now: day6,
    })
    .unwrap();
    assert_eq!(refund.refund_amount, 100_000);

    // The record is gone: a second refund finds no account to pay.
    assert_eq!(
        process_refund(&RefundAccounts {
            contributor_key: contributor,
            contributor_is_signer: true,
            fundraiser_key,
            fundraiser: effect.fundraiser,
            contributor_record: None,
            vault: TokenAccountView {
                owner: fundraiser_key,
                amount: 0,
            },
            now: day6,
        }),
        Err(FundraiserError::UninitializedAccount)
    );
}
