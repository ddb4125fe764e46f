//! Revenue sharing: the creator deposits revenue, contributors and the creator claim
//! their shares.
use vstd::prelude::*;

use crate::book::ContributorRecord;
use crate::campaigns::creator_signers;
use crate::contributions::fits_i128;
use crate::lifecycle::require_revenue_sharing;
use crate::state::{
    fail, failed, no_signers, one_event, one_transfer, signer, succeed, succeeded, CampaignTally,
    ContractView, ProofOfHeart,
};
use crate::types::{Address, Error, Event, Outcome, Transfer};

verus! {

/// The error `deposit_revenue` answers with, if any.
pub open spec fn deposit_error(s: ContractView, id: u32, amount: i128) -> Option<Error> {
    let c = s.campaign(id);
    if !s.has_campaign(id) {
        Some(Error::CampaignNotFound)
    } else if s.is_paused() {
        Some(Error::ContractPaused)
    } else if amount <= 0 {
        Some(Error::ValidationFailed)
    } else if c.is_cancelled {
        Some(Error::CampaignNotActive)
    } else if !c.funds_withdrawn {
        Some(Error::ValidationFailed)
    } else if !c.has_revenue_sharing {
        Some(Error::RevenueSharingNotEnabled)
    } else if c.amount_raised == 0 {
        Some(Error::AmountRaisedIsZero)
    } else {
        None
    }
}

/// A contributor's whole revenue entitlement:
/// `contribution * pool * share / effective_amount_raised / 10000`, each step in `i128`;
/// `None` when a step overflows or divides by zero.
pub open spec fn revenue_due(contribution: i128, pool: i128, share_bps: u32, effective: i128) -> Option<i128> {
    match contribution.checked_mul(pool) {
        None => None,
        Some(a) => match a.checked_mul(share_bps as i128) {
            None => None,
            Some(b) => match b.checked_div(effective) {
                None => None,
                Some(q) => q.checked_div(10000),
            },
        },
    }
}

/// The revenue entitlement of `contributor` in campaign `id`.
pub open spec fn due_of(s: ContractView, id: u32, contributor: Address) -> Option<i128> {
    revenue_due(
        s.record(id, contributor).contribution,
        s.tally(id).revenue_pool,
        s.campaign(id).revenue_share_percentage,
        s.campaign(id).effective_amount_raised,
    )
}

/// The error `claim_revenue` answers with, if any.
pub open spec fn claim_revenue_error(s: ContractView, id: u32, contributor: Address) -> Option<Error> {
    let c = s.campaign(id);
    if s.is_paused() {
        Some(Error::ContractPaused)
    } else if !s.has_campaign(id) {
        Some(Error::CampaignNotFound)
    } else if c.is_cancelled {
        Some(Error::CampaignNotActive)
    } else if !c.has_revenue_sharing || !c.funds_withdrawn || s.record(id, contributor).contribution == 0 {
        Some(Error::ValidationFailed)
    } else if c.effective_amount_raised == 0 {
        Some(Error::AmountRaisedIsZero)
    } else if due_of(s, id, contributor) is None {
        Some(Error::Overflow)
    } else if due_of(s, id, contributor).unwrap() - s.record(id, contributor).revenue_claimed <= 0 {
        Some(Error::NoFundsToWithdraw)
    } else {
        None
    }
}

/// The creator's whole revenue entitlement: `pool * (10000 - share) / 10000` in `i128`.
pub open spec fn creator_due(pool: i128, share_bps: u32) -> Option<i128> {
    match pool.checked_mul((10000 - share_bps) as i128) {
        None => None,
        Some(a) => a.checked_div(10000),
    }
}

/// The error `claim_creator_revenue` answers with, if any.
pub open spec fn claim_creator_error(s: ContractView, id: u32) -> Option<Error> {
    let c = s.campaign(id);
    if !s.has_campaign(id) {
        Some(Error::CampaignNotFound)
    } else if s.is_paused() {
        Some(Error::ContractPaused)
    } else if !c.has_revenue_sharing || c.revenue_share_percentage > 10000 {
        Some(Error::ValidationFailed)
    } else if creator_due(s.tally(id).revenue_pool, c.revenue_share_percentage) is None {
        Some(Error::Overflow)
    } else if creator_due(s.tally(id).revenue_pool, c.revenue_share_percentage).unwrap()
        - s.tally(id).creator_revenue_claimed <= 0 {
        Some(Error::NoFundsToWithdraw)
    } else {
        None
    }
}

impl ProofOfHeart {
    /// The creator of a campaign that withdrew its funds and shares revenue pays
    /// `amount` into the campaign's revenue pool.
    pub fn deposit_revenue(&mut self, campaign_id: u32, amount: i128) -> (out: Outcome<()>)
        requires
            deposit_error(old(self)@, campaign_id, amount) is None ==>
                fits_i128(old(self)@.tally(campaign_id).revenue_pool + amount),
        ensures
            out.signers@ == creator_signers(old(self)@, campaign_id),
            match deposit_error(old(self)@, campaign_id, amount) {
                Some(e) => failed(out, e) && final(self)@ == old(self)@,
                None => {
                    let c = old(self)@.campaign(campaign_id);
                    let t = old(self)@.tally(campaign_id);
                    &&& succeeded(out, seq![Transfer::IntoEscrow { from: c.creator, amount: amount }],
                        seq![Event::RevenueDeposited { campaign_id: campaign_id, creator: c.creator, amount: amount }])
                    &&& final(self)@ == old(self)@.with_tally(campaign_id,
                        (CampaignTally { revenue_pool: (t.revenue_pool + amount) as i128, ..t }))
                },
            },
    {
        let campaign = match self.load_campaign(campaign_id) {
            Some(c) => c,
            None => return fail(no_signers(), Error::CampaignNotFound),
        };
        let creator = campaign.creator;
        if let Err(e) = self.require_not_paused() {
            return fail(signer(creator), e);
        }
        if amount <= 0 {
            return fail(signer(creator), Error::ValidationFailed);
        }
        if campaign.is_cancelled {
            return fail(signer(creator), Error::CampaignNotActive);
        }
        if !campaign.funds_withdrawn {
            return fail(signer(creator), Error::ValidationFailed);
        }
        if let Err(e) = require_revenue_sharing(&campaign, Error::RevenueSharingNotEnabled) {
            return fail(signer(creator), e);
        }
        if campaign.amount_raised == 0 {
            return fail(signer(creator), Error::AmountRaisedIsZero);
        }
        let mut tally = self.load_tally(campaign_id);
        tally.revenue_pool = tally.revenue_pool + amount;
        self.store_tally(campaign_id, tally);
        succeed(
            signer(creator),
            (),
            one_transfer(Transfer::IntoEscrow { from: creator, amount }),
            one_event(Event::RevenueDeposited { campaign_id, creator, amount }),
        )
    }

    /// `contributor` takes what it is owed of the revenue pool, pro rata to its
    /// contribution, less what it already took.
    pub fn claim_revenue(&mut self, campaign_id: u32, contributor: Address) -> (out: Outcome<()>)
        requires
            claim_revenue_error(old(self)@, campaign_id, contributor) is None ==> old(self)@.initialized,
            claim_revenue_error(old(self)@, campaign_id, contributor) is None
                || claim_revenue_error(old(self)@, campaign_id, contributor) == Some(Error::NoFundsToWithdraw) ==>
                fits_i128(due_of(old(self)@, campaign_id, contributor).unwrap()
                    - old(self)@.record(campaign_id, contributor).revenue_claimed),
        ensures
            out.signers@ == seq![contributor],
            match claim_revenue_error(old(self)@, campaign_id, contributor) {
                Some(e) => failed(out, e) && final(self)@ == old(self)@,
                None => {
                    let r = old(self)@.record(campaign_id, contributor);
                    let due = due_of(old(self)@, campaign_id, contributor).unwrap();
                    let claimable = (due - r.revenue_claimed) as i128;
                    &&& succeeded(out, seq![Transfer::OutOfEscrow { to: contributor, amount: claimable }],
                        seq![Event::RevenueClaimed { campaign_id: campaign_id, contributor: contributor, amount: claimable }])
                    &&& final(self)@ == old(self)@.with_record(campaign_id, contributor,
                        (ContributorRecord { revenue_claimed: due, ..r }))
                },
            },
    {
        if let Err(e) = self.require_not_paused() {
            return fail(signer(contributor), e);
        }
        let campaign = match self.load_campaign(campaign_id) {
            Some(c) => c,
            None => return fail(signer(contributor), Error::CampaignNotFound),
        };
        if campaign.is_cancelled {
            return fail(signer(contributor), Error::CampaignNotActive);
        }
        if let Err(e) = require_revenue_sharing(&campaign, Error::ValidationFailed) {
            return fail(signer(contributor), e);
        }
        if !campaign.funds_withdrawn {
            return fail(signer(contributor), Error::ValidationFailed);
        }
        let mut record = self.load_record(campaign_id, contributor);
        if record.contribution == 0 {
            return fail(signer(contributor), Error::ValidationFailed);
        }
        if campaign.effective_amount_raised == 0 {
            return fail(signer(contributor), Error::AmountRaisedIsZero);
        }
        let pool = self.load_tally(campaign_id).revenue_pool;
        let due = match record.contribution.checked_mul(pool) {
            None => None,
            Some(a) => match a.checked_mul(campaign.revenue_share_percentage as i128) {
                None => None,
                Some(b) => match b.checked_div(campaign.effective_amount_raised) {
                    None => None,
                    Some(q) => q.checked_div(10000),
                },
            },
        };
        let due = match due {
            Some(d) => d,
            None => return fail(signer(contributor), Error::Overflow),
        };
        let claimable = due - record.revenue_claimed;
        if claimable <= 0 {
            return fail(signer(contributor), Error::NoFundsToWithdraw);
        }
        record.revenue_claimed = due;
        self.store_record(campaign_id, contributor, record);
        succeed(
            signer(contributor),
            (),
            one_transfer(Transfer::OutOfEscrow { to: contributor, amount: claimable }),
            one_event(Event::RevenueClaimed { campaign_id, contributor, amount: claimable }),
        )
    }

    /// The creator takes its share of the revenue pool (the part not owed to
    /// contributors), less what it already took.
    pub fn claim_creator_revenue(&mut self, campaign_id: u32) -> (out: Outcome<()>)
        requires
            claim_creator_error(old(self)@, campaign_id) is None ==> old(self)@.initialized,
            claim_creator_error(old(self)@, campaign_id) is None
                || claim_creator_error(old(self)@, campaign_id) == Some(Error::NoFundsToWithdraw) ==>
                fits_i128(creator_due(old(self)@.tally(campaign_id).revenue_pool,
                    old(self)@.campaign(campaign_id).revenue_share_percentage).unwrap()
                    - old(self)@.tally(campaign_id).creator_revenue_claimed),
        ensures
            out.signers@ == creator_signers(old(self)@, campaign_id),
            match claim_creator_error(old(self)@, campaign_id) {
                Some(e) => failed(out, e) && final(self)@ == old(self)@,
                None => {
                    let c = old(self)@.campaign(campaign_id);
                    let t = old(self)@.tally(campaign_id);
                    let due = creator_due(t.revenue_pool, c.revenue_share_percentage).unwrap();
                    let claimable = (due - t.creator_revenue_claimed) as i128;
                    &&& succeeded(out, seq![Transfer::OutOfEscrow { to: c.creator, amount: claimable }],
                        seq![Event::CreatorRevenueClaimed { campaign_id: campaign_id, creator: c.creator, amount: claimable }])
                    &&& final(self)@ == old(self)@.with_tally(campaign_id,
                        (CampaignTally { creator_revenue_claimed: due, ..t }))
                },
            },
    {
        let campaign = match self.load_campaign(campaign_id) {
            Some(c) => c,
            None => return fail(no_signers(), Error::CampaignNotFound),
        };
        let creator = campaign.creator;
        if let Err(e) = self.require_not_paused() {
            return fail(signer(creator), e);
        }
        if let Err(e) = require_revenue_sharing(&campaign, Error::ValidationFailed) {
            return fail(signer(creator), e);
        }
        if campaign.revenue_share_percentage > 10000 {
            return fail(signer(creator), Error::ValidationFailed);
        }
        let mut tally = self.load_tally(campaign_id);
        let creator_share_bps: i128 = 10000i128 - campaign.revenue_share_percentage as i128;
        let due = match tally.revenue_pool.checked_mul(creator_share_bps) {
            None => None,
            Some(a) => a.checked_div(10000),
        };
        let due = match due {
            Some(d) => d,
            None => return fail(signer(creator), Error::Overflow),
        };
        let claimable = due - tally.creator_revenue_claimed;
        if claimable <= 0 {
            return fail(signer(creator), Error::NoFundsToWithdraw);
        }
        tally.creator_revenue_claimed = due;
        self.store_tally(campaign_id, tally);
        succeed(
            signer(creator),
            (),
            one_transfer(Transfer::OutOfEscrow { to: creator, amount: claimable }),
            one_event(Event::CreatorRevenueClaimed { campaign_id, creator, amount: claimable }),
        )
    }

    /// The revenue deposited into campaign `campaign_id` and not refunded.
    pub fn get_revenue_pool(&self, campaign_id: u32) -> (a: i128)
        ensures
            a == self@.tally(campaign_id).revenue_pool,
    {
        self.load_tally(campaign_id).revenue_pool
    }

    /// The revenue `contributor` has already taken from campaign `campaign_id`.
    pub fn get_revenue_claimed(&self, campaign_id: u32, contributor: Address) -> (a: i128)
        ensures
            a == self@.record(campaign_id, contributor).revenue_claimed,
    {
        self.load_record(campaign_id, contributor).revenue_claimed
    }
}

} // verus!
