use vstd::prelude::*;

verus! {

/// Every way an operation of this module can fail.
///
/// Failures are categorical and non-retryable: each one aborts the whole
/// operation with no partial effect.
#[derive(Clone, Copy, Debug, PartialEq, Eq, Structural)]
pub enum FundraiserError {
    /// Fewer accounts were supplied than the operation requires.
    NotEnoughAccountKeys,
    /// The caller did not authorize the call for the contributor identity.
    MissingRequiredSignature,
    /// The instruction payload is malformed or its discriminant is unknown.
    InvalidInstructionData,
    /// A token account's recorded owner is not the identity it must equal.
    InvalidAccountOwner,
    /// A record's raw storage does not match its fixed-size layout.
    InvalidAccountData,
    /// The derived address already holds a record.
    AccountAlreadyInitialized,
    /// The record expected at a derived address does not exist.
    UninitializedAccount,
    /// The contribution is below one whole token unit.
    ContributionTooSmall,
    /// The contribution exceeds the per-contribution cap.
    ContributionTooBig,
    /// The campaign window has closed.
    FundraiserEnded,
    /// The campaign window is still open, so no refund is due yet.
    FundraiserNotEnded,
    /// The contributor's running total already exceeds the cap.
    MaximumContributionsReached,
    /// The escrow already holds the target amount, so no refund is due.
    TargetMet,
    /// Accumulating an amount would overflow its fixed-width counter.
    ArithmeticOverflow,
}

} // verus!
