use vstd::prelude::*;

use crate::error::FundraiserError;
use crate::policy::{elapsed_days, spec_elapsed_days};
use crate::state::{pubkey_eq, Contributor, Fundraiser, Pubkey, TokenAccountView};

verus! {

/// Everything Refund reads, gathered by the caller into plain values.
#[derive(Clone, Copy, Debug, PartialEq, Eq)]
pub struct RefundAccounts {
    /// The contributor identity asking for its deposit back.
    pub contributor_key: Pubkey,
    /// Whether that identity authorized this call.
    pub contributor_is_signer: bool,
    /// Derived address of the campaign's Fundraiser record.
    pub fundraiser_key: Pubkey,
    /// The campaign's Fundraiser record, as currently stored.
    pub fundraiser: Fundraiser,
    /// The contributor's record, or `None` if none exists (never created,
    /// or already refunded).
    pub contributor_record: Option<Contributor>,
    /// Snapshot of the campaign's escrow token account.
    pub vault: TokenAccountView,
    /// The clock oracle's current time, in seconds.
    pub now: i64,
}

/// Everything a successful Refund changes. The contributor's record is
/// deallocated and its storage-rent deposit returned; the Fundraiser's
/// `current_amount` is deliberately left unmutated, so it permanently
/// reflects gross lifetime contributions.
#[derive(Clone, Copy, Debug, PartialEq, Eq, Structural)]
pub struct RefundEffect {
    /// Amount to move from escrow back to the contributor's token account:
    /// the contributor's full recorded deposit.
    pub refund_amount: u64,
}

/// What Refund does, gate by gate, in order: authorization, escrow
/// ownership, record existence, window closure, target shortfall.
pub open spec fn spec_refund(accs: RefundAccounts) -> Result<RefundEffect, FundraiserError> {
    if !accs.contributor_is_signer {
        Err(FundraiserError::MissingRequiredSignature)
    } else if accs.vault.owner@ != accs.fundraiser_key@ {
        Err(FundraiserError::InvalidAccountOwner)
    } else if accs.contributor_record is None {
        Err(FundraiserError::UninitializedAccount)
    } else if spec_elapsed_days(accs.now, accs.fundraiser.time_started)
        < accs.fundraiser.duration {
        Err(FundraiserError::FundraiserNotEnded)
    } else if accs.vault.amount >= accs.fundraiser.amount_to_raise {
        Err(FundraiserError::TargetMet)
    } else {
        Ok(RefundEffect { refund_amount: accs.contributor_record->Some_0.amount })
    }
}

/// Pays a contributor's full deposit back out of escrow after a failed
/// campaign, and deallocates the contributor's record.
///
/// A successful campaign is never refundable by this path: whenever the
/// escrow balance has reached the target, the call fails.
pub fn process_refund(accs: &RefundAccounts) -> (r: Result<RefundEffect, FundraiserError>)
    ensures
        r == spec_refund(*accs),
        r matches Ok(e) ==> accs.contributor_record matches Some(c)
            && e.refund_amount == c.amount,
        accs.vault.amount >= accs.fundraiser.amount_to_raise ==> r is Err,
{
    if !accs.contributor_is_signer {
        return Err(FundraiserError::MissingRequiredSignature);
    }
    if !pubkey_eq(&accs.vault.owner, &accs.fundraiser_key) {
        return Err(FundraiserError::InvalidAccountOwner);
    }
    let record = match accs.contributor_record {
        Some(c) => c,
        None => {
            return Err(FundraiserError::UninitializedAccount);
        },
    };
    let elapsed = elapsed_days(accs.now, accs.fundraiser.time_started);
    if elapsed < accs.fundraiser.duration as i64 {
        return Err(FundraiserError::FundraiserNotEnded);
    }
    if accs.vault.amount >= accs.fundraiser.amount_to_raise {
        return Err(FundraiserError::TargetMet);
    }
    Ok(RefundEffect { refund_amount: record.amount })
}

} // verus!
