//! When the campaign operations succeed, stated over the fields of the campaign, its
//! tally and the contributor's record, and proved from the operations' contracts.
use vstd::prelude::*;

use crate::campaigns::{
    accept_transfer_error, cancel_error, cancelled_state, create_error, description_ok,
    extend_error, extended_state, initiate_transfer_error, title_ok, transfer_pending_state,
    transferred_state, update_description_error, update_error, MAX_EXTENSION_DAYS,
};
use crate::revenue::{claim_creator_error, claim_revenue_error, deposit_error};
use crate::voting::{vote_error, vote_verify_error, voted_state, verified_state, verify_error};
use crate::withdraw::{withdraw_error, withdrawn_state};
use crate::contributions::{contribute_error, contributed_state, refund_error, refunded_state};
use crate::state::ContractView;
use crate::types::{Address, Campaign, Category, CreateCampaignParams, Error, Ledger, MaybePendingCreator};

verus! {

/// A refund is owed only where the campaign was cancelled, or its deadline passed without
/// reaching the goal.  A campaign that is not cancelled and reached its goal refuses every
/// refund with `ValidationFailed`, at any time; where the platform runs and the campaign
/// is refundable, a contributor with money in it gets it back (barring an escrow total
/// out of range), and its contribution drops to zero.
pub proof fn law_refund_only_when_cancelled_or_goal_missed(s: ContractView, id: u32, contributor: Address, now: u64)
    ensures
        ({
            let c = s.campaigns[id];
            let r = s.record(id, contributor);
            let running = s.campaigns.contains_key(id) && !s.paused && !s.auto_paused;
            let refundable = c.is_cancelled || (now > c.deadline && c.amount_raised < c.funding_goal);
            &&& refund_error(s, id, contributor, now) is None ==> running && refundable && r.contribution > 0
            &&& running && !c.is_cancelled && c.amount_raised >= c.funding_goal ==>
                refund_error(s, id, contributor, now) == Some(Error::ValidationFailed)
            &&& running && refundable && r.contribution > 0
                && i128::MIN <= c.effective_amount_raised - r.contribution
                && i128::MIN <= s.total_raised_global - r.contribution ==>
                refund_error(s, id, contributor, now) is None
            &&& refund_error(s, id, contributor, now) is None ==>
                refunded_state(s, id, contributor).record(id, contributor).contribution == 0
                && refunded_state(s, id, contributor).campaigns[id].effective_amount_raised
                    == c.effective_amount_raised - r.contribution
                && refunded_state(s, id, contributor).total_raised_global == s.total_raised_global - r.contribution
        }),
{
}

/// The creator can cancel any campaign that is still running and has not paid out,
/// whatever it has raised: cancellation succeeds exactly when the campaign exists, the
/// platform runs, and the campaign is active, not cancelled and not withdrawn.  A
/// cancelled campaign is inactive and keeps what it raised.
pub proof fn law_cancel_until_withdrawal(s: ContractView, id: u32)
    ensures
        ({
            let c = s.campaigns[id];
            &&& (cancel_error(s, id) is None <==> (s.campaigns.contains_key(id) && !s.paused && !s.auto_paused
                && c.is_active && !c.is_cancelled && !c.funds_withdrawn))
            &&& cancel_error(s, id) is None ==> {
                let after = cancelled_state(s, id).campaigns[id];
                &&& after.is_cancelled && !after.is_active
                &&& after.amount_raised == c.amount_raised
                &&& after.effective_amount_raised == c.effective_amount_raised
                &&& after.creator == c.creator
            }
        }),
{
}

/// An extension of the deadline succeeds exactly when the campaign exists, the platform
/// runs, the campaign is active, not cancelled and not extended before, the deadline has
/// not come, the extension is of one to thirty days, and the new deadline stays within
/// the category's longest duration from the campaign's start; whether the campaign was
/// verified plays no part.  It moves the deadline by exactly the days asked for, marks
/// the campaign extended, and changes nothing else of it.
pub proof fn law_extension_conditions(s: ContractView, id: u32, days: u64, now: u64)
    ensures
        ({
            let c = s.campaigns[id];
            let start = s.tally(id).start_time;
            let new_deadline = c.deadline + days * 86400;
            &&& (extend_error(s, id, days, now) is None <==> (
                s.campaigns.contains_key(id) && !s.paused && !s.auto_paused
                && c.is_active && !c.is_cancelled && !c.deadline_extended
                && now < c.deadline
                && 1 <= days <= 30
                && new_deadline <= u64::MAX
                && start is Some
                && start.unwrap() <= new_deadline
                && (new_deadline - start.unwrap()) / 86400 <= s.max_duration_days(c.category)))
            &&& extend_error(s, id, days, now) is None ==> {
                let after = extended_state(s, id, days).campaigns[id];
                &&& after.deadline == new_deadline
                &&& after.deadline_extended
                &&& after == (Campaign { deadline: after.deadline, deadline_extended: true, ..c })
            }
            &&& s.campaigns.contains_key(id) ==> forall|v: bool|
                extend_error(#[trigger] s.with_campaign(id, Campaign { is_verified: v, ..c }), id, days, now)
                    == extend_error(s, id, days, now)
        }),
{
    assert(crate::SECONDS_PER_DAY == 86400);
    assert(MAX_EXTENSION_DAYS == 30);
    let c = s.campaigns[id];
    if s.campaigns.contains_key(id) {
        assert forall|v: bool| extend_error(#[trigger] s.with_campaign(id, Campaign { is_verified: v, ..c }), id, days, now)
            == extend_error(s, id, days, now) by {
            let s2 = s.with_campaign(id, Campaign { is_verified: v, ..c });
            assert(s2.tally(id) == s.tally(id));
            assert(s2.campaigns.contains_key(id));
        }
    }
}

/// A transfer of ownership can be proposed exactly when the campaign exists, the platform
/// runs, the campaign is active, not cancelled and not withdrawn, the proposed owner is
/// another account, and no transfer is pending, whatever the campaign has raised; the
/// proposal records the new owner as pending and changes nothing else of the campaign.
pub proof fn law_transfer_initiation_conditions(s: ContractView, id: u32, new_creator: Address)
    ensures
        ({
            let c = s.campaigns[id];
            &&& (initiate_transfer_error(s, id, new_creator) is None <==> (
                s.campaigns.contains_key(id) && !s.paused && !s.auto_paused
                && c.is_active && !c.is_cancelled && !c.funds_withdrawn
                && new_creator != c.creator
                && c.pending_creator == MaybePendingCreator::NotPending))
            &&& initiate_transfer_error(s, id, new_creator) is None ==>
                transfer_pending_state(s, id, new_creator).campaigns[id]
                    == (Campaign { pending_creator: MaybePendingCreator::Pending(new_creator), ..c })
        }),
{
    let c = s.campaigns[id];
    assert(!(c.pending_creator is Pending) <==> c.pending_creator == MaybePendingCreator::NotPending);
}

/// A contribution is refused unless the platform runs, the amount is positive, the
/// campaign exists, is active, not cancelled and verified, the contributor is not its
/// creator, and the ledger time has not passed the deadline.  Time plays no other part:
/// two ledgers of one sequence on the same side of the deadline get the same answer, and
/// an extension of the deadline is no reason to refuse.
pub proof fn law_contribution_time_and_standing(
    s: ContractView,
    id: u32,
    contributor: Address,
    amount: i128,
    ledger: Ledger,
    other: Ledger,
)
    ensures
        ({
            let c = s.campaigns[id];
            &&& contribute_error(s, id, contributor, amount, ledger) is None ==> (
                !s.paused && !s.auto_paused && amount > 0 && s.campaigns.contains_key(id)
                && contributor != c.creator && c.is_active && !c.is_cancelled && c.is_verified
                && ledger.timestamp <= c.deadline)
            &&& other.sequence == ledger.sequence
                && (other.timestamp <= c.deadline <==> ledger.timestamp <= c.deadline) ==>
                contribute_error(s, id, contributor, amount, other) == contribute_error(s, id, contributor, amount, ledger)
            &&& s.campaigns.contains_key(id) ==> forall|b: bool|
                contribute_error(#[trigger] s.with_campaign(id, Campaign { deadline_extended: b, ..c }), id, contributor, amount, ledger)
                    == contribute_error(s, id, contributor, amount, ledger)
        }),
{
    let c = s.campaigns[id];
    if s.campaigns.contains_key(id) {
        assert forall|b: bool|
            contribute_error(#[trigger] s.with_campaign(id, Campaign { deadline_extended: b, ..c }), id, contributor, amount, ledger)
                == contribute_error(s, id, contributor, amount, ledger) by {
            let s2 = s.with_campaign(id, Campaign { deadline_extended: b, ..c });
            assert(s2.tally(id) == s.tally(id));
            assert(s2.record(id, contributor) == s.record(id, contributor));
            assert(s2.campaigns.contains_key(id));
        }
    }
}

/// A contribution to a verified, running campaign before its deadline is accepted when
/// it keeps within the campaign's per-user cap and the contributor's own cap and no
/// total leaves its range, whatever else the campaign has been through; it raises the
/// campaign's amount, the contributor's contribution and the platform's total by exactly
/// the amount.
pub proof fn law_contribution_accepted(s: ContractView, id: u32, contributor: Address, amount: i128, ledger: Ledger)
    ensures
        ({
            let c = s.campaigns[id];
            let r = s.record(id, contributor);
            let t = s.tally(id);
            let lifetime = r.lifetime_contribution + amount;
            let burst = if t.burst_sequence == ledger.sequence { t.burst_count + 1 } else { 1 };
            &&& (!s.paused && !s.auto_paused && amount > 0 && s.campaigns.contains_key(id)
                && contributor != c.creator && c.is_active && !c.is_cancelled && c.is_verified
                && ledger.timestamp <= c.deadline
                && (c.max_contribution_per_user > 0 ==> lifetime <= c.max_contribution_per_user)
                && (r.personal_cap matches Some(p) ==> (p > 0 ==> lifetime <= p))
                && lifetime <= i128::MAX
                && amount * 10000 <= i128::MAX
                && i128::MIN <= c.funding_goal * 20000 <= i128::MAX
                && burst <= u32::MAX
                && r.contribution + amount <= i128::MAX
                && c.amount_raised + amount <= i128::MAX
                && c.effective_amount_raised + amount <= i128::MAX
                && s.total_raised_global + amount <= i128::MAX
                && (r.contribution == 0 ==> t.contributor_count < u32::MAX)) ==>
                contribute_error(s, id, contributor, amount, ledger) is None
            &&& contribute_error(s, id, contributor, amount, ledger) is None ==> {
                let after = contributed_state(s, id, contributor, amount, ledger);
                &&& after.campaigns[id].amount_raised == c.amount_raised + amount
                &&& after.campaigns[id].effective_amount_raised == c.effective_amount_raised + amount
                &&& after.campaigns[id].deadline == c.deadline
                &&& after.record(id, contributor).contribution == r.contribution + amount
                &&& after.total_raised_global == s.total_raised_global + amount
            }
        }),
{
    assert(crate::AUTO_PAUSE_SINGLE_CONTRIBUTION_BPS_THRESHOLD == 20000);
}

/// Extending a deadline keeps a campaign open to contributions until the new deadline: a
/// contribution that would be accepted before the extension is accepted after it at any
/// time up to the new deadline (in the same ledger sequence).
pub proof fn law_extension_keeps_contributions_open(
    s: ContractView,
    id: u32,
    days: u64,
    now: u64,
    contributor: Address,
    amount: i128,
    ledger: Ledger,
    later: Ledger,
)
    requires
        extend_error(s, id, days, now) is None,
        contribute_error(s, id, contributor, amount, ledger) is None,
        later.sequence == ledger.sequence,
        later.timestamp <= s.campaigns[id].deadline + days * 86400,
    ensures
        contribute_error(extended_state(s, id, days), id, contributor, amount, later) is None,
{
    let s2 = extended_state(s, id, days);
    assert(crate::SECONDS_PER_DAY == 86400);
    assert(s2.tally(id) == s.tally(id));
    assert(s2.record(id, contributor) == s.record(id, contributor));
    assert(s2.campaigns.contains_key(id));
}

/// A withdrawal is refused unless the campaign exists, the platform runs, and the
/// campaign is verified, not cancelled, not withdrawn before, and raised a nonzero amount
/// that reaches its goal; on such a campaign the only possible refusal is `Overflow`.  A
/// withdrawal closes the campaign: it is marked withdrawn and inactive, with what it
/// raised untouched.
pub proof fn law_withdrawal_conditions(s: ContractView, id: u32, now: u64)
    ensures
        ({
            let c = s.campaigns[id];
            let allowed = s.campaigns.contains_key(id) && !s.paused && !s.auto_paused
                && c.is_verified && !c.is_cancelled && !c.funds_withdrawn
                && c.amount_raised != 0 && c.amount_raised >= c.funding_goal;
            &&& withdraw_error(s, id, now) is None ==> allowed
            &&& allowed ==> withdraw_error(s, id, now) is None || withdraw_error(s, id, now) == Some(Error::Overflow)
            &&& withdraw_error(s, id, now) is None ==> {
                let after = withdrawn_state(s, id, now).campaigns[id];
                &&& after.funds_withdrawn && !after.is_active && !after.is_cancelled
                &&& after.amount_raised == c.amount_raised
                &&& after.creator == c.creator
            }
        }),
{
}

/// A vote is taken only on an existing, active, unverified, not withdrawn campaign before
/// its deadline, from an account that holds a positive balance of at least the minimum
/// and has not voted on it; there the only possible refusal is `Overflow`.  A vote adds
/// one to the side it takes, weighted by the balance, and marks the voter.
pub proof fn law_vote_conditions(s: ContractView, id: u32, voter: Address, approve: bool, balance: i128, now: u64)
    ensures
        ({
            let c = s.campaigns[id];
            let t = s.tally(id);
            let allowed = s.campaigns.contains_key(id) && c.is_active && !c.is_cancelled && !c.funds_withdrawn
                && now <= c.deadline && !c.is_verified
                && balance > 0 && balance >= s.min_voting_balance
                && !s.record(id, voter).has_voted;
            &&& vote_error(s, id, voter, approve, balance, now) is None ==> allowed
            &&& allowed ==> vote_error(s, id, voter, approve, balance, now) is None
                || vote_error(s, id, voter, approve, balance, now) == Some(Error::Overflow)
            &&& vote_error(s, id, voter, approve, balance, now) is None ==> {
                let after = voted_state(s, id, voter, approve, balance);
                &&& after.record(id, voter).has_voted
                &&& approve ==> after.tally(id).approve_votes == t.approve_votes + 1
                    && after.tally(id).approve_weight == t.approve_weight + balance
                    && after.tally(id).reject_votes == t.reject_votes
                    && after.tally(id).reject_weight == t.reject_weight
                &&& !approve ==> after.tally(id).reject_votes == t.reject_votes + 1
                    && after.tally(id).reject_weight == t.reject_weight + balance
                    && after.tally(id).approve_votes == t.approve_votes
                    && after.tally(id).approve_weight == t.approve_weight
                &&& after.campaigns == s.campaigns
            }
        }),
{
}

/// The admin verifies exactly the existing campaigns that are active, not cancelled and
/// not verified yet; the community verification refuses the same campaigns and, beyond
/// them, refuses a tally short of the quorum.  Verification marks the campaign verified
/// and changes nothing else of it.
pub proof fn law_verification_conditions(s: ContractView, id: u32)
    ensures
        ({
            let c = s.campaigns[id];
            let t = s.tally(id);
            let open = s.campaigns.contains_key(id) && c.is_active && !c.is_cancelled && !c.is_verified;
            &&& (verify_error(s, id) is None <==> open)
            &&& vote_verify_error(s, id) is None ==> open && t.approve_votes + t.reject_votes >= s.quorum()
            &&& open && t.approve_votes + t.reject_votes < s.quorum() ==>
                vote_verify_error(s, id) == Some(Error::VotingQuorumNotMet)
            &&& verify_error(s, id) is None ==>
                verified_state(s, id).campaigns[id] == (Campaign { is_verified: true, ..c })
        }),
{
}

/// A campaign is created exactly when the platform runs, creation is enabled, the goal is
/// positive and within the platform's bounds, the duration is between one day and the
/// category's longest, the title and description have admissible lengths, revenue is
/// shared only by start-ups, with a share above zero and at most half, the per-user cap is
/// not negative, and the deadline is representable.
pub proof fn law_creation_conditions(s: ContractView, p: CreateCampaignParams, now: u64)
    ensures
        (create_error(s, p, now) is None <==> (
            !s.paused && !s.auto_paused && !s.creation_disabled
            && p.funding_goal > 0
            && p.funding_goal >= s.effective_min_goal()
            && p.funding_goal <= s.effective_max_goal()
            && 1 <= p.duration_days <= s.max_duration_days(p.category)
            && title_ok(p.title@) && description_ok(p.description@)
            && (p.has_revenue_sharing ==> p.category == Category::EducationalStartup)
            && (p.has_revenue_sharing ==> 0 < p.revenue_share_percentage <= 5000)
            && p.max_contribution_per_user >= 0
            && now + p.duration_days * 86400 <= u64::MAX)),
{
}

/// A proposed owner takes over a campaign exactly when the campaign exists, is active and
/// not cancelled, a transfer is pending, and the platform runs; it then owns the campaign
/// and nothing is pending any more.
pub proof fn law_transfer_acceptance_conditions(s: ContractView, id: u32)
    ensures
        ({
            let c = s.campaigns[id];
            &&& (accept_transfer_error(s, id) is None <==> (
                s.campaigns.contains_key(id) && c.is_active && !c.is_cancelled
                && c.pending_creator is Pending && !s.paused && !s.auto_paused))
            &&& accept_transfer_error(s, id) is None ==> {
                let after = transferred_state(s, id).campaigns[id];
                &&& after.creator == c.pending_creator->Pending_0
                &&& after.pending_creator == MaybePendingCreator::NotPending
                &&& after.amount_raised == c.amount_raised
            }
        }),
{
}

/// A campaign's title and description can be edited only while it is active, unverified
/// and has raised nothing; its description alone only while it is active and has raised
/// nothing.
pub proof fn law_update_conditions(s: ContractView, id: u32, title: Seq<char>, description: Seq<char>)
    ensures
        ({
            let c = s.campaigns[id];
            let running = s.campaigns.contains_key(id) && !s.paused && !s.auto_paused;
            &&& (update_error(s, id, title, description) is None <==> (running && c.is_active && !c.is_cancelled
                && !c.is_verified && c.amount_raised <= 0 && title_ok(title) && description_ok(description)))
            &&& (update_description_error(s, id, description) is None <==> (running && c.is_active && !c.is_cancelled
                && c.amount_raised <= 0 && description_ok(description)))
        }),
{
}

/// Revenue moves only for a start-up campaign that shares revenue: a deposit needs a
/// positive amount into a withdrawn, not cancelled, sharing campaign that raised money;
/// a contributor's claim needs a withdrawn, not cancelled, sharing campaign in which it
/// has a contribution; the creator's claim needs a sharing campaign.  In each case the
/// platform must run.
pub proof fn law_revenue_conditions(s: ContractView, id: u32, contributor: Address, amount: i128)
    ensures
        ({
            let c = s.campaigns[id];
            let running = s.campaigns.contains_key(id) && !s.paused && !s.auto_paused;
            &&& (deposit_error(s, id, amount) is None <==> (running && amount > 0 && !c.is_cancelled
                && c.funds_withdrawn && c.has_revenue_sharing && c.amount_raised != 0))
            &&& claim_revenue_error(s, id, contributor) is None ==> running && !c.is_cancelled
                && c.has_revenue_sharing && c.funds_withdrawn && s.record(id, contributor).contribution != 0
            &&& claim_creator_error(s, id) is None ==> running && c.has_revenue_sharing
                && c.revenue_share_percentage <= 10000
        }),
{
}

} // verus!
