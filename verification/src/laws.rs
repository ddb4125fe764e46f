//! Properties of the platform that span several calls, stated over the models the
//! calls' contracts use and proved from them.
use vstd::prelude::*;

use crate::admin::{
    accept_token_error, admin_accepted_state, initialized_state, nominated_state, resume_error,
    token_accepted_state, token_proposed_state, TOKEN_UPDATE_DELAY,
};
use crate::book::{ids_of, without_first, ContributorRecord};
use crate::campaigns::{
    accept_transfer_error, cancel_error, cancelled_state, create_error, created_campaign, created_state, extend_error,
    extended_state, initiate_transfer_error, transfer_pending_state, transferred_state,
    update_description_error, update_error,
};
use crate::contributions::{
    burst_count_after, contribute_error, contributed_state, is_huge, personal_cap_error,
    refund_error, refunded_state,
};
use crate::lifecycle::campaign_is_active;
use crate::queries::{active_between, active_page, lemma_active_between_split, lemma_active_page};
use crate::revenue::{
    claim_creator_error, claim_revenue_error, creator_due, deposit_error, due_of, revenue_due,
};
use crate::state::{CampaignTally, ContractView};
use crate::types::{Address, Campaign, CreateCampaignParams, Error, Ledger, MaybePendingCreator};
use crate::voting::{
    verified_state, verify_error, vote_error, vote_verify_error, voted_state,
};
use crate::withdraw::{
    release_time, reserve_error, reserve_released_state, split_of, withdraw_error, withdrawal_split,
    withdrawn_state,
};

verus! {

/// A platform can be initialised once only: whatever state a successful `init` starts
/// from, it leaves the platform initialised, and `init` refuses an initialised platform
/// with `AlreadyInitialized`.
pub proof fn law_init_only_once(s: ContractView, admin: Address, token: Address, platform_fee: u32)
    ensures
        initialized_state(s, admin, token, platform_fee).initialized,
        initialized_state(s, admin, token, platform_fee).admin == admin,
        initialized_state(s, admin, token, platform_fee).token == token,
{
}

/// While the platform is paused, the state-changing calls of contributors and creators on
/// an existing campaign, and the creation of campaigns, are refused with `ContractPaused`.
pub proof fn law_pause_halts_state_changes(
    s: ContractView,
    id: u32,
    account: Address,
    amount: i128,
    days: u64,
    title: Seq<char>,
    description: Seq<char>,
    params: CreateCampaignParams,
    ledger: Ledger,
)
    requires
        s.is_paused(),
        s.has_campaign(id),
    ensures
        create_error(s, params, ledger.timestamp) == Some(Error::ContractPaused),
        contribute_error(s, id, account, amount, ledger) == Some(Error::ContractPaused),
        refund_error(s, id, account, ledger.timestamp) == Some(Error::ContractPaused),
        personal_cap_error(s, id, amount) == Some(Error::ContractPaused),
        cancel_error(s, id) == Some(Error::ContractPaused),
        withdraw_error(s, id, ledger.timestamp) == Some(Error::ContractPaused),
        extend_error(s, id, days, ledger.timestamp) == Some(Error::ContractPaused),
        update_error(s, id, title, description) == Some(Error::ContractPaused),
        update_description_error(s, id, description) == Some(Error::ContractPaused),
        initiate_transfer_error(s, id, account) == Some(Error::ContractPaused),
        deposit_error(s, id, amount) == Some(Error::ContractPaused),
        claim_revenue_error(s, id, account) == Some(Error::ContractPaused),
        claim_creator_error(s, id) == Some(Error::ContractPaused),
{
}

/// A contribution of more than twice the goal, or more than ten contributions to one
/// campaign within one ledger, pause the platform: the contribution itself is taken, and
/// the next contribution to any campaign is refused with `ContractPaused`.
pub proof fn law_anomalous_contribution_pauses(
    s: ContractView,
    id: u32,
    contributor: Address,
    amount: i128,
    ledger: Ledger,
    next_id: u32,
    next_contributor: Address,
    next_amount: i128,
    next_ledger: Ledger,
)
    requires
        contribute_error(s, id, contributor, amount, ledger) is None,
        is_huge(amount, s.campaign(id).funding_goal)
            || burst_count_after(s.tally(id), ledger.sequence) > crate::AUTO_PAUSE_BURST_THRESHOLD,
    ensures
        contributed_state(s, id, contributor, amount, ledger).is_paused(),
        contributed_state(s, id, contributor, amount, ledger).record(id, contributor).contribution
            == s.record(id, contributor).contribution + amount,
        contribute_error(contributed_state(s, id, contributor, amount, ledger), next_id, next_contributor,
            next_amount, next_ledger) == Some(Error::ContractPaused),
{
}

/// Lifting the automatic pause reopens the platform unless the admin paused it too.
pub proof fn law_resume_lifts_auto_pause(s: ContractView, id: u32, caller: Address)
    requires
        resume_error(s, id, caller) is None,
    ensures
        s.is_paused(),
        (ContractView { auto_paused: false, ..s }).is_paused() == s.paused,
{
}

/// An account that contributes to a campaign that its creator then cancels can take its
/// whole contribution back: the refund is owed at any later time, pays exactly the
/// amount contributed, and leaves the platform's escrow total where it was before.
pub proof fn law_cancelled_contribution_is_refunded(
    s: ContractView,
    id: u32,
    contributor: Address,
    amount: i128,
    ledger: Ledger,
    later: u64,
)
    requires
        s.record(id, contributor).contribution == 0,
        contribute_error(s, id, contributor, amount, ledger) is None,
        cancel_error(contributed_state(s, id, contributor, amount, ledger), id) is None,
    ensures
        ({
            let cancelled = cancelled_state(contributed_state(s, id, contributor, amount, ledger), id);
            &&& refund_error(cancelled, id, contributor, later) is None
            &&& cancelled.record(id, contributor).contribution == amount
            &&& refunded_state(cancelled, id, contributor).record(id, contributor).contribution == 0
            &&& refunded_state(cancelled, id, contributor).total_raised_global == s.total_raised_global
        }),
{
}

/// A refund is paid once: after a successful refund the same account's next claim on
/// the campaign is refused with `NoFundsToWithdraw`.
pub proof fn law_refund_only_once(s: ContractView, id: u32, contributor: Address, now: u64, later: u64)
    requires
        refund_error(s, id, contributor, now) is None,
        later >= now,
    ensures
        refund_error(refunded_state(s, id, contributor), id, contributor, later) == Some(Error::NoFundsToWithdraw),
{
    let c = s.campaign(id);
    assert(refunded_state(s, id, contributor).campaign(id) == Campaign {
        effective_amount_raised: (c.effective_amount_raised - s.record(id, contributor).contribution) as i128,
        ..c
    });
}

/// A withdrawal splits the amount raised without loss: the platform fee, the creator's
/// payment and the reserve add up to the amount raised, and none of them is negative.
pub proof fn law_withdrawal_split_sums(raised: i128, fee_bps: u32, reserve_bps: u32)
    requires
        raised >= 0,
        fee_bps <= 10000,
        reserve_bps <= 10000,
        withdrawal_split(raised, fee_bps, reserve_bps) is Some,
    ensures
        ({
            let (fee, paid, reserve) = withdrawal_split(raised, fee_bps, reserve_bps).unwrap();
            &&& fee + paid + reserve == raised
            &&& 0 <= fee <= raised
            &&& 0 <= reserve
            &&& 0 <= paid
        }),
{
    let fee = withdrawal_split(raised, fee_bps, reserve_bps).unwrap().0;
    let reserve = withdrawal_split(raised, fee_bps, reserve_bps).unwrap().2;
    lemma_bps_ceil_bounds(raised, fee_bps);
    lemma_bps_ceil_bounds((raised - fee) as i128, reserve_bps);
}

proof fn lemma_bps_ceil_bounds(amount: i128, bps: u32)
    requires
        amount >= 0,
        bps <= 10000,
        crate::withdraw::bps_ceil(amount, bps) is Some,
    ensures
        0 <= crate::withdraw::bps_ceil(amount, bps).unwrap() <= amount,
{
    let n = amount * bps + 9999;
    assert(0 <= amount * bps <= amount * 10000) by (nonlinear_arith)
        requires
            amount >= 0,
            bps <= 10000,
    ;
    assert(0 <= n / 10000 <= amount) by (nonlinear_arith)
        requires
            n == amount * bps + 9999,
            0 <= amount * bps <= amount * 10000,
    ;
}

/// Withdrawing closes a campaign for good: a second withdrawal is refused with
/// `FundsAlreadyWithdrawn` and cancelling it with `CampaignNotActive`.
pub proof fn law_withdrawal_is_terminal(s: ContractView, id: u32, now: u64, later: u64)
    requires
        withdraw_error(s, id, now) is None,
    ensures
        withdraw_error(withdrawn_state(s, id, now), id, later) == Some(Error::FundsAlreadyWithdrawn),
        cancel_error(withdrawn_state(s, id, now), id) == Some(Error::CampaignNotActive),
        !withdrawn_state(s, id, now).campaign(id).is_active,
{
}

/// A verified campaign cannot be verified again: the admin path answers
/// `AdminVerificationConflict`, the community path `CommunityVerificationConflict`, and
/// a vote before its deadline `CampaignAlreadyVerified`.
pub proof fn law_reverification_is_refused(
    s: ContractView,
    id: u32,
    voter: Address,
    approve: bool,
    balance: i128,
    now: u64,
)
    requires
        s.has_campaign(id),
        s.campaign(id).is_verified,
        campaign_is_active(s.campaign(id)),
        !s.campaign(id).funds_withdrawn,
        now <= s.campaign(id).deadline,
    ensures
        verify_error(s, id) == Some(Error::AdminVerificationConflict),
        vote_verify_error(s, id) == Some(Error::CommunityVerificationConflict),
        vote_error(s, id, voter, approve, balance, now) == Some(Error::CampaignAlreadyVerified),
{
}

/// Verifying a campaign marks it verified and changes nothing else of it nor of any
/// other campaign; afterwards a second admin verification is refused with
/// `AdminVerificationConflict`.
pub proof fn law_verification_marks_campaign(s: ContractView, id: u32)
    requires
        verify_error(s, id) is None,
    ensures
        verified_state(s, id).campaign(id) == (Campaign { is_verified: true, ..s.campaign(id) }),
        verify_error(verified_state(s, id), id) == Some(Error::AdminVerificationConflict),
        forall|other: u32| other != id ==> {
            &&& (#[trigger] verified_state(s, id).campaigns.contains_key(other)) == s.campaigns.contains_key(other)
            &&& verified_state(s, id).campaigns[other] == s.campaigns[other]
        },
{
}

/// Each account votes once on a campaign: a vote adds exactly one to one side of the
/// tally, and a second vote by the same account (with an admissible balance) is refused
/// with `AlreadyVoted`.
pub proof fn law_one_vote_per_account(
    s: ContractView,
    id: u32,
    voter: Address,
    approve: bool,
    balance: i128,
    now: u64,
    approve_again: bool,
    balance_again: i128,
    later: u64,
)
    requires
        vote_error(s, id, voter, approve, balance, now) is None,
        balance_again > 0,
        balance_again >= s.min_voting_balance,
        later <= s.campaign(id).deadline,
    ensures
        voted_state(s, id, voter, approve, balance).tally(id).approve_votes
            + voted_state(s, id, voter, approve, balance).tally(id).reject_votes
            == s.tally(id).approve_votes + s.tally(id).reject_votes + 1,
        vote_error(voted_state(s, id, voter, approve, balance), id, voter, approve_again, balance_again, later)
            == Some(Error::AlreadyVoted),
{
}

/// A contributor takes its revenue share once: after a successful claim, claiming again
/// from an unchanged pool is refused with `NoFundsToWithdraw`.  The same holds of the
/// creator's share.
pub proof fn law_revenue_claimed_once(s: ContractView, id: u32, contributor: Address)
    ensures
        claim_revenue_error(s, id, contributor) is None ==> claim_revenue_error(
            s.with_record(id, contributor,
                (ContributorRecord { revenue_claimed: due_of(s, id, contributor).unwrap(), ..s.record(id, contributor) })),
            id,
            contributor,
        ) == Some(Error::NoFundsToWithdraw),
        claim_creator_error(s, id) is None ==> claim_creator_error(
            s.with_tally(id, (CampaignTally {
                creator_revenue_claimed: creator_due(s.tally(id).revenue_pool, s.campaign(id).revenue_share_percentage).unwrap(),
                ..s.tally(id)
            })),
            id,
        ) == Some(Error::NoFundsToWithdraw),
{
    if claim_revenue_error(s, id, contributor) is None {
        let s1 = s.with_record(id, contributor,
            (ContributorRecord { revenue_claimed: due_of(s, id, contributor).unwrap(), ..s.record(id, contributor) }));
        assert(due_of(s1, id, contributor) == due_of(s, id, contributor));
    }
}

/// Revenue shares never exceed the pool: for an account whose contribution is part of
/// the campaign's escrow, its whole entitlement and the creator's together stay within
/// the deposited revenue, and neither is negative.
pub proof fn law_revenue_shares_within_pool(pool: i128, share_bps: u32, contribution: i128, effective: i128)
    requires
        pool >= 0,
        share_bps <= 10000,
        0 <= contribution <= effective,
        effective > 0,
        revenue_due(contribution, pool, share_bps, effective) is Some,
        creator_due(pool, share_bps) is Some,
    ensures
        ({
            let due = revenue_due(contribution, pool, share_bps, effective).unwrap();
            let creator = creator_due(pool, share_bps).unwrap();
            &&& 0 <= due
            &&& 0 <= creator
            &&& due + creator <= pool
        }),
{
    let a = contribution * pool;
    let b = a * share_bps;
    let q = b / effective as int;
    let due = q / 10000;
    let c = pool * (10000 - share_bps);
    assert(0 <= a <= effective * pool) by (nonlinear_arith)
        requires
            0 <= contribution <= effective,
            pool >= 0,
            a == contribution * pool,
    ;
    assert(0 <= b <= effective * (pool * share_bps)) by (nonlinear_arith)
        requires
            0 <= a <= effective * pool,
            share_bps >= 0,
            b == a * share_bps,
    ;
    assert(0 <= q <= pool * share_bps) by (nonlinear_arith)
        requires
            0 <= b <= effective * (pool * share_bps),
            effective > 0,
            q == b / effective as int,
    ;
    assert(due + c / 10000 <= pool) by (nonlinear_arith)
        requires
            0 <= q <= pool * share_bps,
            due == q / 10000,
            c == pool * (10000 - share_bps),
            pool >= 0,
            share_bps <= 10000,
    ;
    assert(0 <= c) by (nonlinear_arith)
        requires
            c == pool * (10000 - share_bps),
            pool >= 0,
            share_bps <= 10000,
    ;
}

/// Handing over the admin role in two steps: once the admin nominates another account
/// and that account accepts, it is the admin, nothing is pending, and nothing else changed.
pub proof fn law_admin_handover(s: ContractView, new_admin: Address)
    ensures
        admin_accepted_state(nominated_state(s, new_admin)) == (ContractView {
            admin: new_admin,
            pending_admin: None,
            ..s
        }),
{
}

/// Handing over a campaign in two steps: once its creator proposes another owner and that
/// owner accepts, the campaign belongs to the new owner, nothing is pending, and the
/// campaign is filed last under the new owner and taken out of the old owner's list.
pub proof fn law_campaign_handover(s: ContractView, id: u32, new_creator: Address)
    requires
        initiate_transfer_error(s, id, new_creator) is None,
    ensures
        ({
            let pending = transfer_pending_state(s, id, new_creator);
            let done = transferred_state(pending, id);
            let old_creator = s.campaign(id).creator;
            &&& accept_transfer_error(pending, id) is None
            &&& done.campaign(id) == (Campaign {
                creator: new_creator,
                pending_creator: MaybePendingCreator::NotPending,
                ..s.campaign(id)
            })
            &&& done.creator_ids(new_creator).last() == id
            &&& done.creator_ids(old_creator) == without_first(s.creator_ids(old_creator), id)
        }),
{
    let pending = transfer_pending_state(s, id, new_creator);
    let old_creator = s.campaign(id).creator;
    let creators1 = pending.creators.insert(old_creator, without_first(pending.creator_ids(old_creator), id));
    assert(ids_of(creators1, new_creator).push(id).last() == id);
}

/// A token move waits out its delay: accepting it earlier than a week after it was
/// proposed is refused with `ValidationFailed`; after that it succeeds once no campaign
/// is active and nothing is escrowed, and the platform then uses the new token.
pub proof fn law_token_update_waits(s: ContractView, new_token: Address, proposed_at: u64, now: u64)
    requires
        proposed_at + TOKEN_UPDATE_DELAY <= u64::MAX,
    ensures
        ({
            let release = (proposed_at + TOKEN_UPDATE_DELAY) as u64;
            let proposed = token_proposed_state(s, new_token, release);
            &&& now < release ==> accept_token_error(proposed, s.admin, now) == Some(Error::ValidationFailed)
            &&& now >= release && s.active_campaign_count == 0 && s.total_raised_global == 0
                ==> accept_token_error(proposed, s.admin, now) is None
            &&& token_accepted_state(proposed).token == new_token
        }),
{
}

/// A deadline is extended once: after a successful extension the next one is refused
/// with `DeadlineAlreadyExtended`, and the deadline moved by exactly the days asked for.
pub proof fn law_extension_only_once(s: ContractView, id: u32, days: u64, now: u64, days_again: u64, later: u64)
    requires
        extend_error(s, id, days, now) is None,
    ensures
        extend_error(extended_state(s, id, days), id, days_again, later) == Some(Error::DeadlineAlreadyExtended),
        extended_state(s, id, days).campaign(id).deadline == s.campaign(id).deadline + days * crate::SECONDS_PER_DAY,
{
}


/// What account `k.1` has escrowed in campaign `id` under the bookkeeping `m`, counted
/// only when `k` is a key of campaign `id`.
pub open spec fn escrow_weight(m: Map<(u32, Address), ContributorRecord>, id: u32, k: (u32, Address)) -> int {
    if k.0 == id && m.contains_key(k) {
        m[k].contribution as int
    } else {
        0
    }
}

/// The sum of the escrowed contributions to campaign `id` over the keys `keys`.
pub open spec fn escrow_over(m: Map<(u32, Address), ContributorRecord>, id: u32, keys: Set<(u32, Address)>) -> int
    decreases keys.len(),
    when keys.finite()
{
    if keys.len() == 0 {
        0
    } else {
        let k = keys.choose();
        escrow_weight(m, id, k) + escrow_over(m, id, keys.remove(k))
    }
}

/// The sum of all contributions escrowed in campaign `id`.
pub open spec fn escrowed(s: ContractView, id: u32) -> int {
    escrow_over(s.records, id, s.records.dom())
}

proof fn lemma_escrow_over_remove(m: Map<(u32, Address), ContributorRecord>, id: u32, keys: Set<(u32, Address)>, k: (u32, Address))
    requires
        keys.finite(),
        keys.contains(k),
    ensures
        escrow_over(m, id, keys) == escrow_weight(m, id, k) + escrow_over(m, id, keys.remove(k)),
    decreases keys.len(),
{
    let c = keys.choose();
    if c != k {
        lemma_escrow_over_remove(m, id, keys.remove(c), k);
        lemma_escrow_over_remove(m, id, keys.remove(k), c);
        assert(keys.remove(c).remove(k) =~= keys.remove(k).remove(c));
    }
}

proof fn lemma_escrow_over_frame(
    m1: Map<(u32, Address), ContributorRecord>,
    m2: Map<(u32, Address), ContributorRecord>,
    id: u32,
    keys: Set<(u32, Address)>,
)
    requires
        keys.finite(),
        forall|k: (u32, Address)| keys.contains(k) ==> escrow_weight(m1, id, k) == escrow_weight(m2, id, k),
    ensures
        escrow_over(m1, id, keys) == escrow_over(m2, id, keys),
    decreases keys.len(),
{
    if keys.len() > 0 {
        let k = keys.choose();
        lemma_escrow_over_frame(m1, m2, id, keys.remove(k));
    }
}

proof fn lemma_escrow_after_insert(
    m: Map<(u32, Address), ContributorRecord>,
    id: u32,
    k0: (u32, Address),
    r: ContributorRecord,
)
    requires
        m.dom().finite(),
    ensures
        escrow_over(m.insert(k0, r), id, m.insert(k0, r).dom())
            == escrow_over(m, id, m.dom()) + escrow_weight(m.insert(k0, r), id, k0) - escrow_weight(m, id, k0),
{
    let t = m.insert(k0, r);
    let rest = m.dom().remove(k0);
    assert(t.dom().remove(k0) =~= rest);
    lemma_escrow_over_remove(t, id, t.dom(), k0);
    lemma_escrow_over_frame(t, m, id, rest);
    if m.dom().contains(k0) {
        lemma_escrow_over_remove(m, id, m.dom(), k0);
    } else {
        assert(rest =~= m.dom());
    }
}

/// Every contribution is accounted for: where a campaign's effective amount raised is
/// the sum of what its contributors have escrowed, a contribution to any campaign keeps
/// it so, and the contribution is added to both sides.
pub proof fn law_contribution_is_accounted(
    s: ContractView,
    id: u32,
    contributor: Address,
    amount: i128,
    ledger: Ledger,
    other: u32,
)
    requires
        s.records.dom().finite(),
        contribute_error(s, id, contributor, amount, ledger) is None,
        s.campaign(other).effective_amount_raised == escrowed(s, other),
    ensures
        ({
            let t = contributed_state(s, id, contributor, amount, ledger);
            &&& t.campaign(other).effective_amount_raised == escrowed(t, other)
            &&& escrowed(t, other) == escrowed(s, other) + (if other == id { amount as int } else { 0 })
        }),
{
    let r = s.record(id, contributor);
    let nr = ContributorRecord {
        contribution: (r.contribution + amount) as i128,
        lifetime_contribution: (r.lifetime_contribution + amount) as i128,
        ..r
    };
    lemma_escrow_after_insert(s.records, other, (id, contributor), nr);
}

/// A refund takes out of the accounting exactly what it pays: where a campaign's
/// effective amount raised is the sum of what its contributors have escrowed, a refund
/// on any campaign keeps it so.
pub proof fn law_refund_is_accounted(s: ContractView, id: u32, contributor: Address, now: u64, other: u32)
    requires
        s.records.dom().finite(),
        refund_error(s, id, contributor, now) is None,
        s.campaign(other).effective_amount_raised == escrowed(s, other),
    ensures
        ({
            let t = refunded_state(s, id, contributor);
            &&& t.campaign(other).effective_amount_raised == escrowed(t, other)
            &&& escrowed(t, other) == escrowed(s, other) - (if other == id {
                s.record(id, contributor).contribution as int
            } else {
                0
            })
        }),
{
    let r = s.record(id, contributor);
    let nr = ContributorRecord { contribution: 0, lifetime_contribution: 0, revenue_claimed: 0, ..r };
    lemma_escrow_after_insert(s.records, other, (id, contributor), nr);
}


/// A withdrawal and the later release of its reserve take exactly the amount raised out
/// of the platform's escrow total: the reserve is owed to the creator from its release
/// time on (where the total minus the amount raised is representable), is paid once,
/// and once paid the total has dropped by the amount raised.
pub proof fn law_withdrawal_and_release_take_the_raised_amount(s: ContractView, id: u32, now: u64, later: u64)
    requires
        withdraw_error(s, id, now) is None,
        split_of(s, id).unwrap().2 > 0,
        later >= release_time(s, now),
        s.total_raised_global - s.campaign(id).amount_raised >= i128::MIN,
    ensures
        ({
            let w = withdrawn_state(s, id, now);
            &&& reserve_error(w, id, later) is None
            &&& reserve_released_state(w, id).total_raised_global == s.total_raised_global - s.campaign(id).amount_raised
            &&& reserve_error(reserve_released_state(w, id), id, later) == Some(Error::FundsAlreadyWithdrawn)
        }),
{
}

/// Paging through the active campaigns misses none: where a page after `start` ends at a
/// cursor other than zero, the page after that cursor continues it, and the two pages
/// together are exactly the active campaigns after `start` up to the second cursor (or up
/// to the last campaign where the second cursor is zero), in id order.
pub proof fn law_active_pages_miss_nothing(s: ContractView, start: u32, limit: u32)
    requires
        limit > 0,
        active_page(s, start, limit).1 != 0,
    ensures
        ({
            let (v1, c1) = active_page(s, start, limit);
            let (v2, c2) = active_page(s, c1, limit);
            let end = if c2 != 0 { c2 as int } else { s.campaign_count as int };
            &&& start < c1 <= end
            &&& v1 + v2 == active_between(s, start + 1, end + 1)
        }),
{
    let (v1, c1) = active_page(s, start, limit);
    lemma_active_page(s, start, limit);
    lemma_active_page(s, c1, limit);
    let (v2, c2) = active_page(s, c1, limit);
    let end = if c2 != 0 { c2 as int } else { s.campaign_count as int };
    lemma_active_between_split(s, start + 1, c1 + 1, end + 1);
}

/// A refused creation consumes no id.  `create_campaign` leaves the state as it was when it
/// answers an error, so the state after any number of refused creations is the state
/// before them; a successful creation from there files its campaign under the id right
/// after the last one and leaves every other campaign as it was.  (The id space is a
/// machine limit: creation needs fewer than `u32::MAX` campaigns.)
pub proof fn law_failed_creation_consumes_no_id(
    s: ContractView,
    refused: CreateCampaignParams,
    now: u64,
    accepted: CreateCampaignParams,
    later: u64,
)
    requires
        s.campaign_count < u32::MAX,
        create_error(s, refused, now) is Some,
        create_error(s, accepted, later) is None,
    ensures
        ({
            let id = (s.campaign_count + 1) as u32;
            let after = created_state(s, accepted, later);
            &&& id == s.campaign_count + 1
            &&& after.campaign_count == id
            &&& after.has_campaign(id)
            &&& after.campaign(id) == created_campaign(accepted, id, later)
            &&& forall|other: u32| other != id ==> #[trigger] after.campaigns.contains_key(other) == s.campaigns.contains_key(other)
                && (s.campaigns.contains_key(other) ==> after.campaigns[other] == s.campaigns[other])
        }),
{
}

} // verus!
