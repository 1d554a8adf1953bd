use vstd::prelude::*;

use crate::constants::PERCENTAGE_SCALER;
use crate::error::FundraiserError;
use crate::policy::{elapsed_days, spec_elapsed_days};
use crate::state::{Contributor, Fundraiser};

verus! {

/// A contributor's standing against campaign policy, as reported by
/// CheckContribution.
#[derive(Clone, Copy, Debug, PartialEq, Eq, Structural)]
pub struct ContributionStatus {
    /// The contributor's cumulative deposit, in token base units.
    pub amount: u64,
    /// That deposit as a percentage of the campaign target, rounded down;
    /// zero when the target is zero.
    pub percent_of_target: u128,
    /// Whether the campaign window has closed to further contributions.
    pub window_closed: bool,
}

/// A deposit as a percentage of the target, rounded down.
pub open spec fn spec_percent_of_target(amount: u64, target: u64) -> int {
    if target == 0 {
        0
    } else {
        (amount * PERCENTAGE_SCALER) / (target as int)
    }
}

/// What CheckContribution reports for a stored record.
pub open spec fn spec_check_contribution(
    fundraiser: Fundraiser,
    record: Option<Contributor>,
    now: i64,
) -> Result<ContributionStatus, FundraiserError> {
    match record {
        None => Err(FundraiserError::UninitializedAccount),
        Some(c) => Ok(
            ContributionStatus {
                amount: c.amount,
                percent_of_target: spec_percent_of_target(
                    c.amount,
                    fundraiser.amount_to_raise,
                ) as u128,
                window_closed: spec_elapsed_days(now, fundraiser.time_started)
                    > fundraiser.duration,
            },
        ),
    }
}

/// Read-only inspection of a contributor's standing: its deposit, that
/// deposit's share of the target, and whether the window has closed.
/// Mutates nothing and moves no tokens; fails only on a missing record.
pub fn process_check_contribution(
    fundraiser: &Fundraiser,
    record: &Option<Contributor>,
    now: i64,
) -> (r: Result<ContributionStatus, FundraiserError>)
    ensures
        r == spec_check_contribution(*fundraiser, *record, now),
{
    let c = match record {
        Some(c) => *c,
        None => {
            return Err(FundraiserError::UninitializedAccount);
        },
    };
    let percent: u128 = if fundraiser.amount_to_raise == 0 {
        0
    } else {
        proof {
            assert(PERCENTAGE_SCALER == 100);
            assert(c.amount * 100 <= u64::MAX * 100);
        }
        ((c.amount as u128) * (PERCENTAGE_SCALER as u128)) / (fundraiser.amount_to_raise as u128)
    };
    let elapsed = elapsed_days(now, fundraiser.time_started);
    Ok(
        ContributionStatus {
            amount: c.amount,
            percent_of_target: percent,
            window_closed: elapsed > fundraiser.duration as i64,
        },
    )
}

} // verus!
