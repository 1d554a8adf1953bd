use vstd::prelude::*;

use crate::contribute::{spec_contribute, ContributeAccounts, ContributeEffect};
use crate::error::FundraiserError;
use crate::initialize::{spec_initialize, InitializeAccounts};
use crate::instruction::{ContributeIxData, InitializeIxData};
use crate::refund::{spec_refund, RefundAccounts, RefundEffect};
use crate::state::{Contributor, Fundraiser};

verus! {

/// One campaign's full persistent state, as the external store holds it:
/// the Fundraiser record, every contributor record keyed by contributor
/// identity, and the escrow balance.
pub struct CampaignModel {
    pub fundraiser: Fundraiser,
    pub records: Map<Seq<u8>, Contributor>,
    pub vault_amount: int,
}

/// Sum of every contributor's recorded deposit.
pub open spec fn records_total(m: Map<Seq<u8>, Contributor>) -> int
    decreases m.dom().len(),
{
    if m.dom().finite() && m.dom().len() > 0 {
        let k = m.dom().choose();
        m[k].amount + records_total(m.remove(k))
    } else {
        0
    }
}

/// Removing one record takes exactly its deposit out of the sum.
pub proof fn lemma_records_total_remove(m: Map<Seq<u8>, Contributor>, k: Seq<u8>)
    requires
        m.dom().finite(),
        m.dom().contains(k),
    ensures
        records_total(m) == m[k].amount + records_total(m.remove(k)),
    decreases m.dom().len(),
{
    let k0 = m.dom().choose();
    assert(m.dom().len() > 0);
    if k0 == k {
    } else {
        lemma_records_total_remove(m.remove(k0), k);
        lemma_records_total_remove(m.remove(k), k0);
        assert(m.remove(k0).remove(k) =~= m.remove(k).remove(k0));
    }
}

/// Writing one record shifts the sum by the difference between the new
/// deposit and whatever deposit stood under that key before.
pub proof fn lemma_records_total_insert(m: Map<Seq<u8>, Contributor>, k: Seq<u8>, v: Contributor)
    requires
        m.dom().finite(),
    ensures
        records_total(m.insert(k, v)) == records_total(m) + v.amount - (
        if m.dom().contains(k) {
            m[k].amount as int
        } else {
            0
        }),
{
    let m1 = m.insert(k, v);
    lemma_records_total_remove(m1, k);
    if m.dom().contains(k) {
        lemma_records_total_remove(m, k);
        assert(m1.remove(k) =~= m.remove(k));
    } else {
        assert(m1.remove(k) =~= m);
    }
}

/// The conservation invariant: the Fundraiser's running total equals the
/// sum of every contributor's recorded deposit.
pub open spec fn conserved(s: CampaignModel) -> bool {
    &&& s.records.dom().finite()
    &&& s.fundraiser.current_amount == records_total(s.records)
}

/// Does a Contribute account snapshot faithfully reflect campaign state
/// `s` for the calling contributor?
pub open spec fn contribute_snapshot_of(accs: ContributeAccounts, s: CampaignModel) -> bool {
    &&& accs.fundraiser == s.fundraiser
    &&& accs.contributor_record == (if s.records.dom().contains(accs.contributor_key@) {
        Some(s.records[accs.contributor_key@])
    } else {
        None::<Contributor>
    })
}

/// The campaign state after a successful Contribute commits: both record
/// writes and the escrow deposit land together.
pub open spec fn apply_contribute(
    s: CampaignModel,
    contributor: Seq<u8>,
    e: ContributeEffect,
) -> CampaignModel {
    CampaignModel {
        fundraiser: e.fundraiser,
        records: s.records.insert(contributor, e.contributor_record),
        vault_amount: s.vault_amount + e.transfer_amount,
    }
}

/// A fresh campaign: the record Initialize wrote, no contributors, an
/// empty escrow.
pub open spec fn fresh_campaign(f: Fundraiser) -> CampaignModel {
    CampaignModel { fundraiser: f, records: Map::empty(), vault_amount: 0 }
}

/// Initialize establishes conservation: a fresh campaign's running total
/// (zero) is the sum over its empty record store.
pub proof fn lemma_initialize_conserved(
    accs: InitializeAccounts,
    ix: InitializeIxData,
    f: Fundraiser,
)
    requires
        spec_initialize(accs, ix) == Ok::<Fundraiser, FundraiserError>(f),
    ensures
        conserved(fresh_campaign(f)),
{
    assert(Map::<Seq<u8>, Contributor>::empty().dom() =~= Set::<Seq<u8>>::empty());
}

/// Conservation is preserved: one successful Contribute, committed to the
/// store, keeps the running total equal to the sum of all deposits.
pub proof fn lemma_contribute_preserves_conservation(
    s: CampaignModel,
    accs: ContributeAccounts,
    ix: ContributeIxData,
    e: ContributeEffect,
)
    requires
        conserved(s),
        contribute_snapshot_of(accs, s),
        spec_contribute(accs, ix) == Ok::<ContributeEffect, FundraiserError>(e),
    ensures
        conserved(apply_contribute(s, accs.contributor_key@, e)),
{
    lemma_records_total_insert(s.records, accs.contributor_key@, e.contributor_record);
}

/// A run of Contribute calls against one campaign, each validated against
/// the then-current store and committed before the next; `None` as soon as
/// a snapshot is stale or a call fails.
pub open spec fn run_contributes(
    s: CampaignModel,
    calls: Seq<(ContributeAccounts, ContributeIxData)>,
) -> Option<CampaignModel>
    decreases calls.len(),
{
    if calls.len() == 0 {
        Some(s)
    } else {
        let accs = calls[0].0;
        let ix = calls[0].1;
        if contribute_snapshot_of(accs, s) && spec_contribute(accs, ix) is Ok {
            run_contributes(
                apply_contribute(s, accs.contributor_key@, spec_contribute(accs, ix)->Ok_0),
                calls.drop_first(),
            )
        } else {
            None
        }
    }
}

/// Conservation: after any sequence of successful Contribute calls on one
/// campaign, the Fundraiser's running total equals the sum of every
/// contributor's recorded deposit.
pub proof fn lemma_contribute_sequence_conserves(
    s: CampaignModel,
    calls: Seq<(ContributeAccounts, ContributeIxData)>,
    t: CampaignModel,
)
    requires
        conserved(s),
        run_contributes(s, calls) == Some(t),
    ensures
        conserved(t),
    decreases calls.len(),
{
    if calls.len() > 0 {
        let accs = calls[0].0;
        let ix = calls[0].1;
        let e = spec_contribute(accs, ix)->Ok_0;
        lemma_contribute_preserves_conservation(s, accs, ix, e);
        lemma_contribute_sequence_conserves(
            apply_contribute(s, accs.contributor_key@, e),
            calls.drop_first(),
            t,
        );
    }
}

/// Idempotent record creation: a Contribute call takes the creation branch
/// exactly when no record exists yet, and afterwards the store holds
/// exactly one record for that contributor.
pub proof fn lemma_record_creation_idempotent(
    s: CampaignModel,
    accs: ContributeAccounts,
    ix: ContributeIxData,
    e: ContributeEffect,
)
    requires
        contribute_snapshot_of(accs, s),
        spec_contribute(accs, ix) == Ok::<ContributeEffect, FundraiserError>(e),
    ensures
        e.record_created <==> !s.records.dom().contains(accs.contributor_key@),
        apply_contribute(s, accs.contributor_key@, e).records.dom() =~= s.records.dom().insert(
            accs.contributor_key@,
        ),
{
}

/// Of two first-time Contribute calls from the same contributor, run one
/// after the other as the store serializes them, only the first takes the
/// creation branch, and one record results, not two.
pub proof fn lemma_first_contribution_creates_once(
    s: CampaignModel,
    accs1: ContributeAccounts,
    ix1: ContributeIxData,
    e1: ContributeEffect,
    accs2: ContributeAccounts,
    ix2: ContributeIxData,
    e2: ContributeEffect,
)
    requires
        accs1.contributor_key@ == accs2.contributor_key@,
        !s.records.dom().contains(accs1.contributor_key@),
        contribute_snapshot_of(accs1, s),
        spec_contribute(accs1, ix1) == Ok::<ContributeEffect, FundraiserError>(e1),
        contribute_snapshot_of(accs2, apply_contribute(s, accs1.contributor_key@, e1)),
        spec_contribute(accs2, ix2) == Ok::<ContributeEffect, FundraiserError>(e2),
    ensures
        e1.record_created,
        !e2.record_created,
        apply_contribute(
            apply_contribute(s, accs1.contributor_key@, e1),
            accs2.contributor_key@,
            e2,
        ).records.dom() =~= s.records.dom().insert(accs1.contributor_key@),
{
}

/// Does a Refund account snapshot faithfully reflect campaign state `s`
/// for the calling contributor?
pub open spec fn refund_snapshot_of(accs: RefundAccounts, s: CampaignModel) -> bool {
    &&& accs.fundraiser == s.fundraiser
    &&& accs.vault.amount == s.vault_amount
    &&& accs.contributor_record == (if s.records.dom().contains(accs.contributor_key@) {
        Some(s.records[accs.contributor_key@])
    } else {
        None::<Contributor>
    })
}

/// The campaign state after a successful Refund commits: the contributor's
/// record is gone, its full deposit has left escrow, and the Fundraiser
/// record — including its running total — is untouched.
pub open spec fn apply_refund(
    s: CampaignModel,
    contributor: Seq<u8>,
    e: RefundEffect,
) -> CampaignModel {
    CampaignModel {
        fundraiser: s.fundraiser,
        records: s.records.remove(contributor),
        vault_amount: s.vault_amount - e.refund_amount,
    }
}

/// No double refund: after a successful Refund the contributor's record no
/// longer exists, and a second, properly signed and addressed Refund
/// attempt by the same contributor fails with a missing-account error, not
/// a duplicate payout.
pub proof fn lemma_no_double_refund(
    s: CampaignModel,
    accs1: RefundAccounts,
    e1: RefundEffect,
    accs2: RefundAccounts,
)
    requires
        refund_snapshot_of(accs1, s),
        spec_refund(accs1) == Ok::<RefundEffect, FundraiserError>(e1),
        accs2.contributor_key@ == accs1.contributor_key@,
        accs2.contributor_is_signer,
        accs2.vault.owner@ == accs2.fundraiser_key@,
        refund_snapshot_of(accs2, apply_refund(s, accs1.contributor_key@, e1)),
    ensures
        !apply_refund(s, accs1.contributor_key@, e1).records.dom().contains(
            accs1.contributor_key@,
        ),
        spec_refund(accs2) == Err::<RefundEffect, FundraiserError>(
            FundraiserError::UninitializedAccount,
        ),
{
}

/// Window enforcement: Contribute's window gate and Refund's window gate
/// read the same clock and never both fire. With every earlier gate
/// passed, Contribute fails `FundraiserEnded` exactly when the elapsed
/// whole days exceed the duration, and Refund fails `FundraiserNotEnded`
/// exactly when they fall short of it.
pub proof fn lemma_window_enforcement(
    caccs: ContributeAccounts,
    ix: ContributeIxData,
    raccs: RefundAccounts,
)
    requires
        caccs.fundraiser == raccs.fundraiser,
        caccs.now == raccs.now,
        caccs.contributor_is_signer,
        caccs.vault.owner@ == caccs.fundraiser_key@,
        caccs.contributor_ata.owner@ == caccs.contributor_key@,
        crate::policy::pow10(caccs.mint_decimals as nat) <= ix.amount,
        ix.amount <= crate::policy::spec_max_contribution(caccs.fundraiser.amount_to_raise),
        raccs.contributor_is_signer,
        raccs.vault.owner@ == raccs.fundraiser_key@,
        raccs.contributor_record is Some,
    ensures
        spec_contribute(caccs, ix) == Err::<ContributeEffect, FundraiserError>(
            FundraiserError::FundraiserEnded,
        ) <==> crate::policy::spec_elapsed_days(caccs.now, caccs.fundraiser.time_started)
            > caccs.fundraiser.duration,
        spec_refund(raccs) == Err::<RefundEffect, FundraiserError>(
            FundraiserError::FundraiserNotEnded,
        ) <==> crate::policy::spec_elapsed_days(raccs.now, raccs.fundraiser.time_started)
            < raccs.fundraiser.duration,
        !(spec_contribute(caccs, ix) == Err::<ContributeEffect, FundraiserError>(
            FundraiserError::FundraiserEnded,
        ) && spec_refund(raccs) == Err::<RefundEffect, FundraiserError>(
            FundraiserError::FundraiserNotEnded,
        )),
{
}

} // verus!
