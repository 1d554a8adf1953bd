use vstd::prelude::*;

use crate::constants::{MAX_CONTRIBUTION_PERCENTAGE, PERCENTAGE_SCALER, SECONDS_TO_DAYS};

verus! {

/// Ten to the `n`th power: one whole token unit at `n` decimals of precision.
pub open spec fn pow10(n: nat) -> nat
    decreases n,
{
    if n == 0 {
        1
    } else {
        10 * pow10((n - 1) as nat)
    }
}

pub proof fn lemma_pow10_increases(i: nat, j: nat)
    requires
        i <= j,
    ensures
        pow10(i) <= pow10(j),
    decreases j,
{
    if i < j {
        lemma_pow10_increases(i, (j - 1) as nat);
    }
}

/// Is `amount` below one whole token unit at `decimals` of precision?
pub fn below_minimum(amount: u64, decimals: u8) -> (r: bool)
    ensures
        r <==> (amount as nat) < pow10(decimals as nat),
{
    let mut unit: u64 = 1;
    let mut i: u8 = 0;
    while i < decimals
        invariant
            i <= decimals,
            unit == pow10(i as nat),
        decreases decimals - i,
    {
        match unit.checked_mul(10) {
            Some(next) => {
                unit = next;
            },
            None => {
                proof {
                    lemma_pow10_increases((i + 1) as nat, decimals as nat);
                }
                return true;
            },
        }
        i += 1;
    }
    amount < unit
}

/// The per-contribution cap: a fixed percentage of the campaign target.
pub open spec fn spec_max_contribution(amount_to_raise: u64) -> int {
    (amount_to_raise * MAX_CONTRIBUTION_PERCENTAGE) / (PERCENTAGE_SCALER as int)
}

/// Computes the per-contribution cap without overflow.
pub fn max_contribution(amount_to_raise: u64) -> (r: u64)
    ensures
        r == spec_max_contribution(amount_to_raise),
        r <= amount_to_raise,
{
    proof {
        assert((amount_to_raise * MAX_CONTRIBUTION_PERCENTAGE) / (PERCENTAGE_SCALER as int)
            <= amount_to_raise) by (nonlinear_arith);
        assert((amount_to_raise * MAX_CONTRIBUTION_PERCENTAGE) / (PERCENTAGE_SCALER as int)
            >= 0) by (nonlinear_arith);
    }
    let scaled: u128 = (amount_to_raise as u128) * (MAX_CONTRIBUTION_PERCENTAGE as u128);
    (scaled / (PERCENTAGE_SCALER as u128)) as u64
}

/// Whole days elapsed from `started` to `now`; zero when the clock has not
/// yet passed the start.
pub open spec fn spec_elapsed_days(now: i64, started: i64) -> int {
    if now <= started {
        0
    } else {
        (now - started) / (SECONDS_TO_DAYS as int)
    }
}

/// Computes the elapsed whole days of a campaign window.
pub fn elapsed_days(now: i64, started: i64) -> (r: i64)
    ensures
        r == spec_elapsed_days(now, started),
        r >= 0,
{
    if now <= started {
        0
    } else {
        let diff: u128 = ((now as i128) - (started as i128)) as u128;
        proof {
            vstd::arithmetic::div_mod::lemma_div_is_ordered(
                diff as int,
                u64::MAX as int,
                SECONDS_TO_DAYS as int,
            );
        }
        (diff / (SECONDS_TO_DAYS as u128)) as i64
    }
}

} // verus!
