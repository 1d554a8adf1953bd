use vstd::prelude::*;

use crate::error::FundraiserError;
use crate::instruction::InitializeIxData;
use crate::state::{Fundraiser, Pubkey};

verus! {

/// Everything Initialize reads, gathered by the caller into plain values.
#[derive(Clone, Copy, Debug, PartialEq, Eq)]
pub struct InitializeAccounts {
    /// Identity of the campaign creator.
    pub maker: Pubkey,
    /// Identity of the token type the campaign accepts.
    pub mint: Pubkey,
    /// Whether the derived address already holds a record.
    pub fundraiser_exists: bool,
    /// The clock oracle's current time, in seconds.
    pub now: i64,
}

/// The Fundraiser record a fresh campaign starts from: zero raised so far,
/// the window opening at the current time.
pub open spec fn spec_initialize(accs: InitializeAccounts, ix: InitializeIxData) -> Result<
    Fundraiser,
    FundraiserError,
> {
    if accs.fundraiser_exists {
        Err(FundraiserError::AccountAlreadyInitialized)
    } else {
        Ok(
            Fundraiser {
                owner: accs.maker,
                mint: accs.mint,
                amount_to_raise: ix.amount_to_raise,
                current_amount: 0,
                time_started: accs.now,
                duration: ix.duration,
                bump: ix.fundraiser_bump,
            },
        )
    }
}

/// Creates a Fundraiser record for a new campaign at its derived address,
/// zero-initialized and stamped with the current time. No token movement
/// occurs here; the caller allocates and rent-funds the new storage.
pub fn process_initialize(accs: &InitializeAccounts, ix: &InitializeIxData) -> (r: Result<
    Fundraiser,
    FundraiserError,
>)
    ensures
        r == spec_initialize(*accs, *ix),
        r matches Ok(f) ==> f.current_amount == 0 && f.time_started == accs.now,
{
    if accs.fundraiser_exists {
        return Err(FundraiserError::AccountAlreadyInitialized);
    }
    Ok(
        Fundraiser {
            owner: accs.maker,
            mint: accs.mint,
            amount_to_raise: ix.amount_to_raise,
            current_amount: 0,
            time_started: accs.now,
            duration: ix.duration,
            bump: ix.fundraiser_bump,
        },
    )
}

} // verus!
