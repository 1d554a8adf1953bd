use vstd::prelude::*;

use crate::error::FundraiserError;
use crate::instruction::ContributeIxData;
use crate::policy::{
    below_minimum, elapsed_days, max_contribution, pow10, spec_elapsed_days,
    spec_max_contribution,
};
use crate::state::{pubkey_eq, Contributor, Fundraiser, Pubkey, TokenAccountView};

verus! {

/// Everything Contribute reads, gathered by the caller into plain values:
/// the authorizing identity, snapshots of the records and token accounts,
/// and the clock oracle's current time.
#[derive(Clone, Copy, Debug, PartialEq, Eq)]
pub struct ContributeAccounts {
    /// The contributor identity the deposit is credited to.
    pub contributor_key: Pubkey,
    /// Whether that identity authorized this call.
    pub contributor_is_signer: bool,
    /// Decimal precision of the accepted token type.
    pub mint_decimals: u8,
    /// Derived address of the campaign's Fundraiser record.
    pub fundraiser_key: Pubkey,
    /// The campaign's Fundraiser record, as currently stored.
    pub fundraiser: Fundraiser,
    /// The contributor's record, or `None` if none exists yet.
    pub contributor_record: Option<Contributor>,
    /// Snapshot of the contributor's token account.
    pub contributor_ata: TokenAccountView,
    /// Snapshot of the campaign's escrow token account.
    pub vault: TokenAccountView,
    /// The clock oracle's current time, in seconds.
    pub now: i64,
}

/// Everything a successful Contribute changes: the records to write back
/// and the transfer the token subsystem must make. The surrounding
/// transaction boundary commits all of it, or none.
#[derive(Clone, Copy, Debug, PartialEq, Eq)]
pub struct ContributeEffect {
    /// The Fundraiser record to write back, its running total raised.
    pub fundraiser: Fundraiser,
    /// The contributor's record to write back, its deposit raised.
    pub contributor_record: Contributor,
    /// Whether the contributor's record was created by this call.
    pub record_created: bool,
    /// Amount to move from the contributor's token account into escrow.
    pub transfer_amount: u64,
}

/// The contributor record Contribute starts from: the stored one, or a
/// zero-initialized one created on first use with the payload's bump.
pub open spec fn spec_base_record(
    record: Option<Contributor>,
    contributor_bump: u8,
) -> Contributor {
    match record {
        Some(c) => c,
        None => Contributor { amount: 0, bump: contributor_bump },
    }
}

/// What Contribute does, gate by gate, in order: authorization, token
/// account ownership, dust floor, per-contribution cap, campaign window,
/// per-contributor cap, then checked accumulation.
///
/// The per-contributor gate is deliberately a conjunction: it rejects only
/// when the pre-existing deposit already exceeds the cap *and* the raised
/// deposit would still exceed it. A single contribution that crosses the
/// cap in one step is therefore allowed once — a quirk of the rule as
/// shipped, kept here exactly rather than tightened to a plain
/// post-addition check.
pub open spec fn spec_contribute(accs: ContributeAccounts, ix: ContributeIxData) -> Result<
    ContributeEffect,
    FundraiserError,
> {
    let cap = spec_max_contribution(accs.fundraiser.amount_to_raise);
    let base = spec_base_record(accs.contributor_record, ix.contributor_bump);
    if !accs.contributor_is_signer {
        Err(FundraiserError::MissingRequiredSignature)
    } else if accs.vault.owner@ != accs.fundraiser_key@
        || accs.contributor_ata.owner@ != accs.contributor_key@ {
        Err(FundraiserError::InvalidAccountOwner)
    } else if (ix.amount as nat) < pow10(accs.mint_decimals as nat) {
        Err(FundraiserError::ContributionTooSmall)
    } else if ix.amount > cap {
        Err(FundraiserError::ContributionTooBig)
    } else if spec_elapsed_days(accs.now, accs.fundraiser.time_started)
        > accs.fundraiser.duration {
        Err(FundraiserError::FundraiserEnded)
    } else if base.amount > cap && base.amount + ix.amount > cap {
        Err(FundraiserError::MaximumContributionsReached)
    } else if base.amount + ix.amount > u64::MAX
        || accs.fundraiser.current_amount + ix.amount > u64::MAX {
        Err(FundraiserError::ArithmeticOverflow)
    } else {
        Ok(
            ContributeEffect {
                fundraiser: Fundraiser {
                    current_amount: (accs.fundraiser.current_amount + ix.amount) as u64,
                    ..accs.fundraiser
                },
                contributor_record: Contributor {
                    amount: (base.amount + ix.amount) as u64,
                    ..base
                },
                record_created: accs.contributor_record is None,
                transfer_amount: ix.amount,
            },
        )
    }
}

/// Validates and records one deposit into a campaign.
///
/// On success the returned effect raises both the contributor's deposit
/// and the campaign's running total by exactly the contributed amount,
/// and names the transfer the token subsystem must make.
pub fn process_contribute(accs: &ContributeAccounts, ix: &ContributeIxData) -> (r: Result<
    ContributeEffect,
    FundraiserError,
>)
    ensures
        r == spec_contribute(*accs, *ix),
        r matches Ok(e) ==> {
            &&& e.fundraiser.current_amount
                == accs.fundraiser.current_amount + ix.amount
            &&& e.contributor_record.amount
                == spec_base_record(accs.contributor_record, ix.contributor_bump).amount
                + ix.amount
            &&& e.transfer_amount == ix.amount
        },
{
    if !accs.contributor_is_signer {
        return Err(FundraiserError::MissingRequiredSignature);
    }
    if !pubkey_eq(&accs.vault.owner, &accs.fundraiser_key)
        || !pubkey_eq(&accs.contributor_ata.owner, &accs.contributor_key) {
        return Err(FundraiserError::InvalidAccountOwner);
    }
    let (base_amount, base_bump, created) = match accs.contributor_record {
        Some(c) => (c.amount, c.bump, false),
        None => (0u64, ix.contributor_bump, true),
    };
    if below_minimum(ix.amount, accs.mint_decimals) {
        return Err(FundraiserError::ContributionTooSmall);
    }
    let cap = max_contribution(accs.fundraiser.amount_to_raise);
    if ix.amount > cap {
        return Err(FundraiserError::ContributionTooBig);
    }
    let elapsed = elapsed_days(accs.now, accs.fundraiser.time_started);
    if elapsed > accs.fundraiser.duration as i64 {
        return Err(FundraiserError::FundraiserEnded);
    }
    let new_deposit = if base_amount > cap {
        match base_amount.checked_add(ix.amount) {
            Some(total) if total <= cap => total,
            _ => {
                return Err(FundraiserError::MaximumContributionsReached);
            },
        }
    } else {
        match base_amount.checked_add(ix.amount) {
            Some(total) => total,
            None => {
                return Err(FundraiserError::ArithmeticOverflow);
            },
        }
    };
    let new_total = match accs.fundraiser.current_amount.checked_add(ix.amount) {
        Some(total) => total,
        None => {
            return Err(FundraiserError::ArithmeticOverflow);
        },
    };
    Ok(
        ContributeEffect {
            fundraiser: Fundraiser { current_amount: new_total, ..accs.fundraiser },
            contributor_record: Contributor { amount: new_deposit, bump: base_bump },
            record_created: created,
            transfer_amount: ix.amount,
        },
    )
}

/// Cap enforcement: an authorized, well-addressed contribution of at least
/// one whole token unit that exceeds the fixed percentage of the campaign
/// target always fails with `ContributionTooBig`, whatever the stored
/// records, the running total, or the clock hold.
pub proof fn lemma_cap_enforcement(accs: ContributeAccounts, ix: ContributeIxData)
    requires
        accs.contributor_is_signer,
        accs.vault.owner@ == accs.fundraiser_key@,
        accs.contributor_ata.owner@ == accs.contributor_key@,
        pow10(accs.mint_decimals as nat) <= ix.amount,
        ix.amount > spec_max_contribution(accs.fundraiser.amount_to_raise),
    ensures
        spec_contribute(accs, ix) == Err::<ContributeEffect, FundraiserError>(
            FundraiserError::ContributionTooBig,
        ),
{
}

} // verus!
