use vstd::prelude::*;

verus! {

/// Largest share of `amount_to_raise` that a single contribution (or a
/// contributor's running total) may take, as a percentage.
pub const MAX_CONTRIBUTION_PERCENTAGE: u64 = 10;

/// Scale that turns the percentage above into a fraction.
pub const PERCENTAGE_SCALER: u64 = 100;

/// Number of seconds in one whole day.
pub const SECONDS_TO_DAYS: i64 = 86400;

} // verus!
