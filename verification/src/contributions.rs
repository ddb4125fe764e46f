//! Contributions, refunds and contribution caps.
use vstd::prelude::*;

use crate::book::ContributorRecord;
use crate::campaigns::dec;
use crate::lifecycle::{campaign_is_active, require_active_campaign};
use crate::state::{
    fail, failed, no_transfers, one_event, one_transfer, signer, succeed, succeeded, CampaignTally,
    ContractView, ProofOfHeart,
};
use crate::types::{Address, Campaign, Error, Event, Ledger, Outcome, Transfer};

verus! {

/// Whether `x` fits in an `i128`.
pub open spec fn fits_i128(x: int) -> bool {
    i128::MIN <= x <= i128::MAX
}

/// Whether a running total of `lifetime` stays within the campaign's per-user cap and
/// the contributor's own cap (a cap of zero sets no limit).
pub open spec fn within_caps(c: Campaign, r: ContributorRecord, lifetime: int) -> bool {
    &&& (c.max_contribution_per_user > 0 ==> lifetime <= c.max_contribution_per_user)
    &&& (r.personal_cap matches Some(p) ==> (p > 0 ==> lifetime <= p))
}

/// How many contributions the campaign has seen in the ledger `sequence`, this one included.
pub open spec fn burst_count_after(t: CampaignTally, sequence: u32) -> int {
    if t.burst_sequence == sequence {
        t.burst_count + 1
    } else {
        1
    }
}

/// Whether a contribution of `amount` is larger than the anomaly threshold share of `goal`.
pub open spec fn is_huge(amount: i128, goal: i128) -> bool {
    amount * 10000 > goal * crate::AUTO_PAUSE_SINGLE_CONTRIBUTION_BPS_THRESHOLD
}

/// The error `contribute` answers with, if any.
pub open spec fn contribute_error(s: ContractView, id: u32, contributor: Address, amount: i128, ledger: Ledger) -> Option<Error> {
    let c = s.campaign(id);
    let r = s.record(id, contributor);
    let t = s.tally(id);
    if s.is_paused() {
        Some(Error::ContractPaused)
    } else if amount <= 0 {
        Some(Error::ValidationFailed)
    } else if !s.has_campaign(id) {
        Some(Error::CampaignNotFound)
    } else if contributor == c.creator {
        Some(Error::NotAuthorized)
    } else if !campaign_is_active(c) {
        Some(Error::CampaignNotActive)
    } else if !c.is_verified {
        Some(Error::CampaignNotVerified)
    } else if ledger.timestamp > c.deadline {
        Some(Error::DeadlinePassed)
    } else if !fits_i128(r.lifetime_contribution + amount) {
        Some(Error::Overflow)
    } else if !within_caps(c, r, r.lifetime_contribution + amount) {
        Some(Error::ValidationFailed)
    } else if !fits_i128(amount * 10000) || !fits_i128(c.funding_goal * crate::AUTO_PAUSE_SINGLE_CONTRIBUTION_BPS_THRESHOLD) {
        Some(Error::Overflow)
    } else if burst_count_after(t, ledger.sequence) > u32::MAX {
        Some(Error::Overflow)
    } else if !fits_i128(r.contribution + amount) || !fits_i128(c.amount_raised + amount)
        || !fits_i128(c.effective_amount_raised + amount) || !fits_i128(s.total_raised_global + amount) {
        Some(Error::Overflow)
    } else if r.contribution == 0 && t.contributor_count == u32::MAX {
        Some(Error::Overflow)
    } else {
        None
    }
}

/// The state after `contribute` succeeds.
pub open spec fn contributed_state(s: ContractView, id: u32, contributor: Address, amount: i128, ledger: Ledger) -> ContractView {
    let c = s.campaign(id);
    let r = s.record(id, contributor);
    let t = s.tally(id);
    let count = burst_count_after(t, ledger.sequence);
    ContractView {
        campaigns: s.campaigns.insert(id, Campaign {
            amount_raised: (c.amount_raised + amount) as i128,
            effective_amount_raised: (c.effective_amount_raised + amount) as i128,
            ..c
        }),
        tallies: s.tallies.insert(id, CampaignTally {
            burst_sequence: ledger.sequence,
            burst_count: count as u32,
            contributor_count: if r.contribution == 0 { (t.contributor_count + 1) as u32 } else { t.contributor_count },
            ..t
        }),
        records: s.records.insert((id, contributor), ContributorRecord {
            contribution: (r.contribution + amount) as i128,
            lifetime_contribution: (r.lifetime_contribution + amount) as i128,
            ..r
        }),
        total_raised_global: (s.total_raised_global + amount) as i128,
        auto_paused: s.auto_paused || is_huge(amount, c.funding_goal) || count > crate::AUTO_PAUSE_BURST_THRESHOLD,
        ..s
    }
}

/// The events of a successful `contribute`.
pub open spec fn contribute_events(s: ContractView, id: u32, contributor: Address, amount: i128, ledger: Ledger) -> Seq<Event> {
    let count = burst_count_after(s.tally(id), ledger.sequence);
    (if is_huge(amount, s.campaign(id).funding_goal) {
        seq![Event::AutoPausedHugeContribution { amount: amount }]
    } else {
        Seq::empty()
    }) + (if count > crate::AUTO_PAUSE_BURST_THRESHOLD {
        seq![Event::AutoPausedBurst { count: count as u32 }]
    } else {
        Seq::empty()
    }) + seq![Event::ContributionMade { campaign_id: id, contributor: contributor, amount: amount }]
}

/// Whether a contributor may take its money back: the campaign was cancelled, or its
/// deadline passed without reaching the goal.
pub open spec fn refundable(c: Campaign, now: u64) -> bool {
    c.is_cancelled || (now > c.deadline && c.amount_raised < c.funding_goal)
}

/// The error `claim_refund` answers with, if any.
pub open spec fn refund_error(s: ContractView, id: u32, contributor: Address, now: u64) -> Option<Error> {
    let c = s.campaign(id);
    let r = s.record(id, contributor);
    if s.is_paused() {
        Some(Error::ContractPaused)
    } else if !s.has_campaign(id) {
        Some(Error::CampaignNotFound)
    } else if !refundable(c, now) {
        Some(Error::ValidationFailed)
    } else if r.contribution <= 0 {
        Some(Error::NoFundsToWithdraw)
    } else if !fits_i128(c.effective_amount_raised - r.contribution) || !fits_i128(s.total_raised_global - r.contribution) {
        Some(Error::Overflow)
    } else {
        None
    }
}

/// The state after `claim_refund` succeeds.
pub open spec fn refunded_state(s: ContractView, id: u32, contributor: Address) -> ContractView {
    let c = s.campaign(id);
    let r = s.record(id, contributor);
    let t = s.tally(id);
    ContractView {
        campaigns: s.campaigns.insert(id, Campaign {
            effective_amount_raised: (c.effective_amount_raised - r.contribution) as i128,
            ..c
        }),
        tallies: s.tallies.insert(id, CampaignTally { contributor_count: dec(t.contributor_count), ..t }),
        records: s.records.insert((id, contributor), ContributorRecord {
            contribution: 0,
            lifetime_contribution: 0,
            revenue_claimed: 0,
            ..r
        }),
        total_raised_global: (s.total_raised_global - r.contribution) as i128,
        ..s
    }
}

/// The error `set_personal_cap` answers with, if any.
pub open spec fn personal_cap_error(s: ContractView, id: u32, amount: i128) -> Option<Error> {
    if s.is_paused() {
        Some(Error::ContractPaused)
    } else if !s.has_campaign(id) {
        Some(Error::CampaignNotFound)
    } else if amount < 0 || (s.campaign(id).max_contribution_per_user > 0 && amount > s.campaign(id).max_contribution_per_user) {
        Some(Error::ValidationFailed)
    } else {
        None
    }
}

impl ProofOfHeart {
    /// `contributor` puts `amount` of the platform token into a verified, active campaign
    /// before its deadline, within the campaign's and its own caps.  A single
    /// contribution above twice the goal, or more than ten contributions to one campaign
    /// in one ledger, pause the platform automatically (the contribution still counts).
    pub fn contribute(&mut self, campaign_id: u32, contributor: Address, amount: i128, ledger: Ledger) -> (out: Outcome<()>)
        requires
            contribute_error(old(self)@, campaign_id, contributor, amount, ledger) is None ==> old(self)@.initialized,
        ensures
            out.signers@ == seq![contributor],
            match contribute_error(old(self)@, campaign_id, contributor, amount, ledger) {
                Some(e) => failed(out, e) && final(self)@ == old(self)@,
                None => {
                    &&& succeeded(out, seq![Transfer::IntoEscrow { from: contributor, amount: amount }],
                        contribute_events(old(self)@, campaign_id, contributor, amount, ledger))
                    &&& final(self)@ == contributed_state(old(self)@, campaign_id, contributor, amount, ledger)
                },
            },
    {
        if let Err(e) = self.require_not_paused() {
            return fail(signer(contributor), e);
        }
        if amount <= 0 {
            return fail(signer(contributor), Error::ValidationFailed);
        }
        let mut campaign = match self.load_campaign(campaign_id) {
            Some(c) => c,
            None => return fail(signer(contributor), Error::CampaignNotFound),
        };
        if contributor == campaign.creator {
            return fail(signer(contributor), Error::NotAuthorized);
        }
        if let Err(e) = require_active_campaign(&campaign) {
            return fail(signer(contributor), e);
        }
        if !campaign.is_verified {
            return fail(signer(contributor), Error::CampaignNotVerified);
        }
        if ledger.timestamp > campaign.deadline {
            return fail(signer(contributor), Error::DeadlinePassed);
        }
        let mut record = self.load_record(campaign_id, contributor);
        let lifetime = match record.lifetime_contribution.checked_add(amount) {
            Some(l) => l,
            None => return fail(signer(contributor), Error::Overflow),
        };
        let max_per_user = campaign.max_contribution_per_user;
        if max_per_user > 0 && lifetime > max_per_user {
            return fail(signer(contributor), Error::ValidationFailed);
        }
        if let Some(p) = record.personal_cap {
            if p > 0 && lifetime > p {
                return fail(signer(contributor), Error::ValidationFailed);
            }
        }
        let scaled_amount = match amount.checked_mul(10000) {
            Some(v) => v,
            None => return fail(signer(contributor), Error::Overflow),
        };
        let scaled_goal = match campaign.funding_goal.checked_mul(crate::AUTO_PAUSE_SINGLE_CONTRIBUTION_BPS_THRESHOLD) {
            Some(v) => v,
            None => return fail(signer(contributor), Error::Overflow),
        };
        let huge = scaled_amount > scaled_goal;
        let mut tally = self.load_tally(campaign_id);
        let count: u32 = if tally.burst_sequence == ledger.sequence {
            match tally.burst_count.checked_add(1) {
                Some(n) => n,
                None => return fail(signer(contributor), Error::Overflow),
            }
        } else {
            1
        };
        let burst = count > crate::AUTO_PAUSE_BURST_THRESHOLD;
        let new_contribution = match record.contribution.checked_add(amount) {
            Some(v) => v,
            None => return fail(signer(contributor), Error::Overflow),
        };
        let new_raised = match campaign.amount_raised.checked_add(amount) {
            Some(v) => v,
            None => return fail(signer(contributor), Error::Overflow),
        };
        let new_effective = match campaign.effective_amount_raised.checked_add(amount) {
            Some(v) => v,
            None => return fail(signer(contributor), Error::Overflow),
        };
        let new_total = match self.total_raised_global.checked_add(amount) {
            Some(v) => v,
            None => return fail(signer(contributor), Error::Overflow),
        };
        let new_count = if record.contribution == 0 {
            match tally.contributor_count.checked_add(1) {
                Some(n) => n,
                None => return fail(signer(contributor), Error::Overflow),
            }
        } else {
            tally.contributor_count
        };
        campaign.amount_raised = new_raised;
        campaign.effective_amount_raised = new_effective;
        tally.burst_sequence = ledger.sequence;
        tally.burst_count = count;
        tally.contributor_count = new_count;
        record.contribution = new_contribution;
        record.lifetime_contribution = lifetime;
        self.store_campaign(campaign_id, campaign);
        self.store_tally(campaign_id, tally);
        self.store_record(campaign_id, contributor, record);
        self.total_raised_global = new_total;
        self.auto_paused = self.auto_paused || huge || burst;
        assert(self@ =~= contributed_state(old(self)@, campaign_id, contributor, amount, ledger));
        let mut events: Vec<Event> = Vec::new();
        if huge {
            events.push(Event::AutoPausedHugeContribution { amount });
        }
        if burst {
            events.push(Event::AutoPausedBurst { count });
        }
        events.push(Event::ContributionMade { campaign_id, contributor, amount });
        assert(events@ =~= contribute_events(old(self)@, campaign_id, contributor, amount, ledger));
        succeed(signer(contributor), (), one_transfer(Transfer::IntoEscrow { from: contributor, amount }), events)
    }

    /// `contributor` takes back its whole contribution to a cancelled campaign, or to one
    /// whose deadline passed short of its goal.
    pub fn claim_refund(&mut self, campaign_id: u32, contributor: Address, ledger: Ledger) -> (out: Outcome<()>)
        requires
            refund_error(old(self)@, campaign_id, contributor, ledger.timestamp) is None ==> old(self)@.initialized,
        ensures
            out.signers@ == seq![contributor],
            match refund_error(old(self)@, campaign_id, contributor, ledger.timestamp) {
                Some(e) => failed(out, e) && final(self)@ == old(self)@,
                None => {
                    let amount = old(self)@.record(campaign_id, contributor).contribution;
                    &&& succeeded(out, seq![Transfer::OutOfEscrow { to: contributor, amount: amount }],
                        seq![Event::RefundClaimed { campaign_id: campaign_id, contributor: contributor, amount: amount }])
                    &&& final(self)@ == refunded_state(old(self)@, campaign_id, contributor)
                },
            },
    {
        if let Err(e) = self.require_not_paused() {
            return fail(signer(contributor), e);
        }
        let mut campaign = match self.load_campaign(campaign_id) {
            Some(c) => c,
            None => return fail(signer(contributor), Error::CampaignNotFound),
        };
        let failed_goal = ledger.timestamp > campaign.deadline && campaign.amount_raised < campaign.funding_goal;
        if !campaign.is_cancelled && !failed_goal {
            return fail(signer(contributor), Error::ValidationFailed);
        }
        let mut record = self.load_record(campaign_id, contributor);
        let amount = record.contribution;
        if amount <= 0 {
            return fail(signer(contributor), Error::NoFundsToWithdraw);
        }
        let new_effective = match campaign.effective_amount_raised.checked_sub(amount) {
            Some(v) => v,
            None => return fail(signer(contributor), Error::Overflow),
        };
        let new_total = match self.total_raised_global.checked_sub(amount) {
            Some(v) => v,
            None => return fail(signer(contributor), Error::Overflow),
        };
        let mut tally = self.load_tally(campaign_id);
        tally.contributor_count = tally.contributor_count.saturating_sub(1);
        campaign.effective_amount_raised = new_effective;
        record.contribution = 0;
        record.lifetime_contribution = 0;
        record.revenue_claimed = 0;
        self.store_campaign(campaign_id, campaign);
        self.store_tally(campaign_id, tally);
        self.store_record(campaign_id, contributor, record);
        self.total_raised_global = new_total;
        assert(self@ =~= refunded_state(old(self)@, campaign_id, contributor));
        succeed(
            signer(contributor),
            (),
            one_transfer(Transfer::OutOfEscrow { to: contributor, amount }),
            one_event(Event::RefundClaimed { campaign_id, contributor, amount }),
        )
    }

    /// `contributor` sets a ceiling on its own running total in a campaign, no higher
    /// than the campaign's per-user cap.
    pub fn set_personal_cap(&mut self, campaign_id: u32, contributor: Address, amount: i128) -> (out: Outcome<()>)
        ensures
            out.signers@ == seq![contributor],
            match personal_cap_error(old(self)@, campaign_id, amount) {
                Some(e) => failed(out, e) && final(self)@ == old(self)@,
                None => {
                    &&& succeeded(out, seq![], seq![Event::PersonalCapSet {
                        campaign_id: campaign_id,
                        contributor: contributor,
                        amount: amount,
                    }])
                    &&& final(self)@ == old(self)@.with_record(campaign_id, contributor,
                        (ContributorRecord { personal_cap: Some(amount), ..old(self)@.record(campaign_id, contributor) }))
                },
            },
    {
        if let Err(e) = self.require_not_paused() {
            return fail(signer(contributor), e);
        }
        let campaign = match self.load_campaign(campaign_id) {
            Some(c) => c,
            None => return fail(signer(contributor), Error::CampaignNotFound),
        };
        if amount < 0 || (campaign.max_contribution_per_user > 0 && amount > campaign.max_contribution_per_user) {
            return fail(signer(contributor), Error::ValidationFailed);
        }
        let mut record = self.load_record(campaign_id, contributor);
        record.personal_cap = Some(amount);
        self.store_record(campaign_id, contributor, record);
        let ev = Event::PersonalCapSet { campaign_id, contributor, amount };
        succeed(signer(contributor), (), no_transfers(), one_event(ev))
    }

    /// The amount `contributor` has escrowed in campaign `campaign_id`.
    pub fn get_contribution(&self, campaign_id: u32, contributor: Address) -> (a: i128)
        ensures
            a == self@.record(campaign_id, contributor).contribution,
    {
        self.load_record(campaign_id, contributor).contribution
    }

    /// The running total `contributor` has put into campaign `campaign_id`.
    pub fn get_lifetime_contribution(&self, campaign_id: u32, contributor: Address) -> (a: i128)
        ensures
            a == self@.record(campaign_id, contributor).lifetime_contribution,
    {
        self.load_record(campaign_id, contributor).lifetime_contribution
    }

    /// The cap `contributor` set on itself in campaign `campaign_id` (zero when none).
    pub fn get_personal_cap(&self, campaign_id: u32, contributor: Address) -> (a: i128)
        ensures
            a == (match self@.record(campaign_id, contributor).personal_cap {
                Some(p) => p,
                None => 0,
            }),
    {
        match self.load_record(campaign_id, contributor).personal_cap {
            Some(p) => p,
            None => 0,
        }
    }

    /// The number of accounts with an escrowed contribution to campaign `campaign_id`.
    pub fn get_total_contributors_count(&self, campaign_id: u32) -> (n: u32)
        ensures
            n == self@.tally(campaign_id).contributor_count,
    {
        self.load_tally(campaign_id).contributor_count
    }
}

} // verus!
