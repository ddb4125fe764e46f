//! Creating, cancelling, editing and handing over campaigns.
use vstd::prelude::*;

use crate::book::without_first;
use crate::lifecycle::{calculate_deadline, campaign_is_active, require_active_campaign, require_unverified_campaign};
use crate::state::{
    fail, failed, no_signers, no_transfers, one_event, one_transfer, signer, succeed, succeeded,
    two_events, without_votes, CampaignTally, ContractView, ProofOfHeart,
};
use crate::types::{
    category_number, Address, Campaign, Category, CreateCampaignParams, Error, Event, Ledger,
    MaybePendingCreator, Outcome, Transfer,
};

verus! {

/// The length of a text in bytes of UTF-8, the measure every length limit is stated in
/// (as the machine counts it).
pub open spec fn byte_len(s: Seq<char>) -> usize {
    vstd::utf8::encode_utf8(s).len() as usize
}

pub open spec fn title_ok(s: Seq<char>) -> bool {
    crate::CAMPAIGN_TITLE_MIN_LEN <= byte_len(s) <= crate::CAMPAIGN_TITLE_MAX_LEN
}

pub open spec fn description_ok(s: Seq<char>) -> bool {
    crate::CAMPAIGN_DESCRIPTION_MIN_LEN <= byte_len(s) <= crate::CAMPAIGN_DESCRIPTION_MAX_LEN
}

/// The revenue share stored for a campaign: the requested one, or zero without revenue sharing.
pub open spec fn stored_share(p: CreateCampaignParams) -> u32 {
    if p.has_revenue_sharing {
        p.revenue_share_percentage
    } else {
        0
    }
}

/// The error `create_campaign` answers with, if any.
pub open spec fn create_error(s: ContractView, p: CreateCampaignParams, now: u64) -> Option<Error> {
    if s.is_paused() {
        Some(Error::ContractPaused)
    } else if s.creation_disabled {
        Some(Error::CreationDisabled)
    } else if p.funding_goal <= 0 {
        Some(Error::FundingGoalMustBePositive)
    } else if p.funding_goal < s.effective_min_goal() {
        Some(Error::FundingGoalTooLow)
    } else if p.funding_goal > s.effective_max_goal() {
        Some(Error::FundingGoalTooHigh)
    } else if !(crate::CAMPAIGN_DURATION_MIN_DAYS <= p.duration_days <= s.max_duration_days(p.category)) {
        Some(Error::InvalidDuration)
    } else if !title_ok(p.title@) || !description_ok(p.description@) {
        Some(Error::ValidationFailed)
    } else if p.category != Category::EducationalStartup && p.has_revenue_sharing {
        Some(Error::RevenueShareOnlyForStartup)
    } else if stored_share(p) > crate::REVENUE_SHARE_MAX_BPS || (p.has_revenue_sharing && stored_share(p) == 0) {
        Some(Error::InvalidRevenueShare)
    } else if p.max_contribution_per_user < 0 {
        Some(Error::ValidationFailed)
    } else if now + p.duration_days * crate::SECONDS_PER_DAY > u64::MAX {
        Some(Error::ValidationFailed)
    } else {
        None
    }
}

/// The campaign `create_campaign` stores under `id`.
pub open spec fn created_campaign(p: CreateCampaignParams, id: u32, now: u64) -> Campaign {
    Campaign {
        id: id,
        creator: p.creator,
        first_creator: p.creator,
        pending_creator: MaybePendingCreator::NotPending,
        title: p.title,
        description: p.description,
        funding_goal: p.funding_goal,
        deadline: (now + p.duration_days * crate::SECONDS_PER_DAY) as u64,
        amount_raised: 0,
        is_active: true,
        funds_withdrawn: false,
        is_cancelled: false,
        is_verified: false,
        category: p.category,
        has_revenue_sharing: p.has_revenue_sharing,
        revenue_share_percentage: stored_share(p),
        max_contribution_per_user: p.max_contribution_per_user,
        fee_override: None,
        deadline_extended: false,
        effective_amount_raised: 0,
    }
}

/// The state with `id` filed last under category `c`.
pub open spec fn with_category_id(s: ContractView, c: Category, id: u32) -> ContractView {
    match c {
        Category::Learner => ContractView { learner_ids: s.learner_ids.push(id), ..s },
        Category::Educator => ContractView { educator_ids: s.educator_ids.push(id), ..s },
        Category::Publisher => ContractView { publisher_ids: s.publisher_ids.push(id), ..s },
        Category::EducationalStartup => ContractView { startup_ids: s.startup_ids.push(id), ..s },
    }
}

/// The state after `create_campaign` succeeds.
pub open spec fn created_state(s: ContractView, p: CreateCampaignParams, now: u64) -> ContractView {
    let id = (s.campaign_count + 1) as u32;
    let s1 = ContractView {
        campaign_count: id,
        campaigns: s.campaigns.insert(id, created_campaign(p, id, now)),
        tallies: s.tallies.insert(id, CampaignTally { start_time: Some(now), revenue_pool: 0, ..s.tally(id) }),
        creators: s.creators.insert(p.creator, s.creator_ids(p.creator).push(id)),
        active_campaign_count: if s.active_campaign_count < u32::MAX {
            (s.active_campaign_count + 1) as u32
        } else {
            s.active_campaign_count
        },
        ..s
    };
    with_category_id(s1, p.category, id)
}

/// `n - 1`, or zero for zero.
pub open spec fn dec(n: u32) -> u32 {
    if n > 0 { (n - 1) as u32 } else { 0 }
}

/// `n + 1`, or `n` at the top of the range.
pub open spec fn inc(n: u32) -> u32 {
    if n < u32::MAX { (n + 1) as u32 } else { n }
}

/// The signers of a call that acts as the creator of campaign `id`: the creator,
/// once the campaign is known to exist.
pub open spec fn creator_signers(s: ContractView, id: u32) -> Seq<Address> {
    if s.has_campaign(id) {
        seq![s.campaign(id).creator]
    } else {
        Seq::empty()
    }
}

/// The error `cancel_campaign` answers with, if any.
pub open spec fn cancel_error(s: ContractView, id: u32) -> Option<Error> {
    if !s.has_campaign(id) {
        Some(Error::CampaignNotFound)
    } else if s.is_paused() {
        Some(Error::ContractPaused)
    } else if !campaign_is_active(s.campaign(id)) {
        Some(Error::CampaignNotActive)
    } else if s.campaign(id).funds_withdrawn {
        Some(Error::CancellationNotAllowed)
    } else {
        None
    }
}

/// The state after `cancel_campaign` succeeds.
pub open spec fn cancelled_state(s: ContractView, id: u32) -> ContractView {
    let c = s.campaign(id);
    let t = s.tally(id);
    ContractView {
        campaigns: s.campaigns.insert(id, Campaign { is_cancelled: true, is_active: false, ..c }),
        tallies: s.tallies.insert(id, without_votes(
            if t.revenue_pool > 0 { CampaignTally { revenue_pool: 0, ..t } } else { t },
        )),
        active_campaign_count: dec(s.active_campaign_count),
        cancelled_campaign_count: inc(s.cancelled_campaign_count),
        ..s
    }
}

/// The error `initiate_campaign_transfer` answers with, if any.
pub open spec fn initiate_transfer_error(s: ContractView, id: u32, new_creator: Address) -> Option<Error> {
    if !s.has_campaign(id) {
        Some(Error::CampaignNotFound)
    } else if s.is_paused() {
        Some(Error::ContractPaused)
    } else if !campaign_is_active(s.campaign(id)) || s.campaign(id).funds_withdrawn {
        Some(Error::CampaignNotActive)
    } else if new_creator == s.campaign(id).creator {
        Some(Error::InvalidNewOwner)
    } else if s.campaign(id).pending_creator is Pending {
        Some(Error::TransferAlreadyPending)
    } else {
        None
    }
}

/// The state with `new_creator` proposed as the next owner of campaign `id`.
pub open spec fn transfer_pending_state(s: ContractView, id: u32, new_creator: Address) -> ContractView {
    s.with_campaign(id, Campaign { pending_creator: MaybePendingCreator::Pending(new_creator), ..s.campaign(id) })
}

/// The error `accept_campaign_transfer` answers with, if any.
pub open spec fn accept_transfer_error(s: ContractView, id: u32) -> Option<Error> {
    if !s.has_campaign(id) {
        Some(Error::CampaignNotFound)
    } else if !campaign_is_active(s.campaign(id)) {
        Some(Error::CampaignNotActive)
    } else if s.campaign(id).pending_creator is NotPending {
        Some(Error::NoTransferPending)
    } else if s.is_paused() {
        Some(Error::ContractPaused)
    } else {
        None
    }
}

/// The state after `accept_campaign_transfer` succeeds.
pub open spec fn transferred_state(s: ContractView, id: u32) -> ContractView {
    let c = s.campaign(id);
    let old_creator = c.creator;
    let new_creator = c.pending_creator->Pending_0;
    let creators1 = s.creators.insert(old_creator, without_first(s.creator_ids(old_creator), id));
    ContractView {
        campaigns: s.campaigns.insert(id, Campaign {
            creator: new_creator,
            pending_creator: MaybePendingCreator::NotPending,
            ..c
        }),
        creators: creators1.insert(new_creator, crate::book::ids_of(creators1, new_creator).push(id)),
        ..s
    }
}

/// The error `update_campaign` answers with, if any.
pub open spec fn update_error(s: ContractView, id: u32, title: Seq<char>, description: Seq<char>) -> Option<Error> {
    if !s.has_campaign(id) {
        Some(Error::CampaignNotFound)
    } else if s.is_paused() {
        Some(Error::ContractPaused)
    } else if s.campaign(id).is_verified {
        Some(Error::CampaignAlreadyVerified)
    } else if s.campaign(id).amount_raised > 0 {
        Some(Error::ValidationFailed)
    } else if !campaign_is_active(s.campaign(id)) {
        Some(Error::CampaignNotActive)
    } else if !title_ok(title) || !description_ok(description) {
        Some(Error::ValidationFailed)
    } else {
        None
    }
}

/// The error `update_campaign_description` answers with, if any.
pub open spec fn update_description_error(s: ContractView, id: u32, description: Seq<char>) -> Option<Error> {
    if !s.has_campaign(id) {
        Some(Error::CampaignNotFound)
    } else if s.is_paused() {
        Some(Error::ContractPaused)
    } else if !campaign_is_active(s.campaign(id)) {
        Some(Error::CampaignNotActive)
    } else if s.campaign(id).amount_raised > 0 || !description_ok(description) {
        Some(Error::ValidationFailed)
    } else {
        None
    }
}

/// The deadline a campaign gets when extended by `days`.
pub open spec fn extended_deadline(c: Campaign, days: u64) -> int {
    c.deadline + days * crate::SECONDS_PER_DAY
}

/// The error `extend_campaign_deadline` answers with, if any.
pub open spec fn extend_error(s: ContractView, id: u32, days: u64, now: u64) -> Option<Error> {
    if !s.has_campaign(id) {
        Some(Error::CampaignNotFound)
    } else if s.is_paused() {
        Some(Error::ContractPaused)
    } else if !campaign_is_active(s.campaign(id)) {
        Some(Error::CampaignNotActive)
    } else if s.campaign(id).deadline_extended {
        Some(Error::DeadlineAlreadyExtended)
    } else if now >= s.campaign(id).deadline {
        Some(Error::DeadlinePassed)
    } else if days == 0 || days > MAX_EXTENSION_DAYS {
        Some(Error::ExtensionTooLong)
    } else if extended_deadline(s.campaign(id), days) > u64::MAX {
        Some(Error::Overflow)
    } else if s.tally(id).start_time is None {
        Some(Error::InvalidDuration)
    } else if extended_deadline(s.campaign(id), days) < s.tally(id).start_time.unwrap() {
        Some(Error::Overflow)
    } else if (extended_deadline(s.campaign(id), days) - s.tally(id).start_time.unwrap()) / (crate::SECONDS_PER_DAY as int)
        > s.max_duration_days(s.campaign(id).category) {
        Some(Error::InvalidDuration)
    } else {
        None
    }
}

/// The state after the deadline of campaign `id` was extended by `days`.
pub open spec fn extended_state(s: ContractView, id: u32, days: u64) -> ContractView {
    s.with_campaign(id, Campaign {
        deadline: extended_deadline(s.campaign(id), days) as u64,
        deadline_extended: true,
        ..s.campaign(id)
    })
}

/// The longest extension of a deadline, in days.
pub const MAX_EXTENSION_DAYS: u64 = 30;

impl ProofOfHeart {
    fn push_category_id(&mut self, c: Category, id: u32)
        ensures
            final(self)@ == with_category_id(old(self)@, c, id),
    {
        match c {
            Category::Learner => self.learner_ids.push(id),
            Category::Educator => self.educator_ids.push(id),
            Category::Publisher => self.publisher_ids.push(id),
            Category::EducationalStartup => self.startup_ids.push(id),
        }
    }

    /// Opens a new campaign with the next id.
    pub fn create_campaign(&mut self, params: CreateCampaignParams, ledger: Ledger) -> (out: Outcome<u32>)
        requires
            old(self)@.campaign_count < u32::MAX,
        ensures
            out.signers@ == seq![params.creator],
            match create_error(old(self)@, params, ledger.timestamp) {
                Some(e) => failed(out, e) && final(self)@ == old(self)@,
                None => {
                    &&& succeeded(out, seq![], seq![Event::CampaignCreated {
                        campaign_id: (old(self)@.campaign_count + 1) as u32,
                        creator: params.creator,
                        title: params.title,
                        category: category_number(params.category),
                    }])
                    &&& out.result matches Ok(r) && r.value == old(self)@.campaign_count + 1
                    &&& final(self)@ == created_state(old(self)@, params, ledger.timestamp)
                },
            },
    {
        let creator = params.creator;
        if let Err(e) = self.require_not_paused() {
            return fail(signer(creator), e);
        }
        if self.creation_disabled {
            return fail(signer(creator), Error::CreationDisabled);
        }
        let CreateCampaignParams {
            creator,
            title,
            description,
            funding_goal,
            duration_days,
            category,
            has_revenue_sharing,
            revenue_share_percentage,
            max_contribution_per_user,
        } = params;
        if funding_goal <= 0 {
            return fail(signer(creator), Error::FundingGoalMustBePositive);
        }
        if funding_goal < self.effective_min_goal() {
            return fail(signer(creator), Error::FundingGoalTooLow);
        }
        if funding_goal > self.effective_max_goal() {
            return fail(signer(creator), Error::FundingGoalTooHigh);
        }
        let duration_max = self.max_duration_days(category);
        if duration_days < crate::CAMPAIGN_DURATION_MIN_DAYS || duration_days > duration_max {
            return fail(signer(creator), Error::InvalidDuration);
        }
        let title_len = title.as_str().len();
        if title_len < crate::CAMPAIGN_TITLE_MIN_LEN as usize || title_len > crate::CAMPAIGN_TITLE_MAX_LEN as usize {
            return fail(signer(creator), Error::ValidationFailed);
        }
        let description_len = description.as_str().len();
        if description_len < crate::CAMPAIGN_DESCRIPTION_MIN_LEN as usize
            || description_len > crate::CAMPAIGN_DESCRIPTION_MAX_LEN as usize {
            return fail(signer(creator), Error::ValidationFailed);
        }
        if category != Category::EducationalStartup && has_revenue_sharing {
            return fail(signer(creator), Error::RevenueShareOnlyForStartup);
        }
        let share = if !has_revenue_sharing { 0u32 } else { revenue_share_percentage };
        if share > crate::REVENUE_SHARE_MAX_BPS {
            return fail(signer(creator), Error::InvalidRevenueShare);
        }
        if has_revenue_sharing && share == 0 {
            return fail(signer(creator), Error::InvalidRevenueShare);
        }
        if max_contribution_per_user < 0 {
            return fail(signer(creator), Error::ValidationFailed);
        }
        let now = ledger.timestamp;
        let deadline = match calculate_deadline(now, duration_days) {
            Ok(d) => d,
            Err(e) => return fail(signer(creator), e),
        };
        let id = self.campaign_count + 1;
        let event_title = title.clone();
        let campaign = Campaign {
            id,
            creator,
            first_creator: creator,
            pending_creator: MaybePendingCreator::NotPending,
            title,
            description,
            funding_goal,
            deadline,
            amount_raised: 0,
            is_active: true,
            funds_withdrawn: false,
            is_cancelled: false,
            is_verified: false,
            category,
            has_revenue_sharing,
            revenue_share_percentage: share,
            max_contribution_per_user,
            fee_override: None,
            deadline_extended: false,
            effective_amount_raised: 0,
        };
        let mut tally = self.load_tally(id);
        tally.start_time = Some(now);
        tally.revenue_pool = 0;
        self.store_campaign(id, campaign);
        self.store_tally(id, tally);
        self.campaign_count = id;
        self.creators.push(creator, id);
        self.active_campaign_count = self.active_campaign_count.saturating_add(1);
        let ghost s1 = self@;
        self.push_category_id(category, id);
        proof {
            assert(s1 =~= ContractView {
                campaign_count: id,
                campaigns: old(self)@.campaigns.insert(id, created_campaign(params, id, now)),
                tallies: old(self)@.tallies.insert(id, CampaignTally { start_time: Some(now), revenue_pool: 0, ..old(self)@.tally(id) }),
                creators: old(self)@.creators.insert(creator, old(self)@.creator_ids(creator).push(id)),
                active_campaign_count: if old(self)@.active_campaign_count < u32::MAX {
                    (old(self)@.active_campaign_count + 1) as u32
                } else {
                    old(self)@.active_campaign_count
                },
                ..old(self)@
            });
        }
        let ev = Event::CampaignCreated { campaign_id: id, creator, title: event_title, category: category.number() };
        succeed(signer(creator), id, no_transfers(), one_event(ev))
    }

    /// The creator cancels an active campaign.  Any deposited revenue goes back to the
    /// creator; contributors reclaim their money with `claim_refund`.
    pub fn cancel_campaign(&mut self, campaign_id: u32) -> (out: Outcome<()>)
        ensures
            out.signers@ == creator_signers(old(self)@, campaign_id),
            match cancel_error(old(self)@, campaign_id) {
                Some(e) => failed(out, e) && final(self)@ == old(self)@,
                None => {
                    let c = old(self)@.campaign(campaign_id);
                    let pool = old(self)@.tally(campaign_id).revenue_pool;
                    let cancelled = Event::CampaignCancelled {
                        campaign_id: campaign_id,
                        creator: c.creator,
                        amount_raised: c.amount_raised,
                    };
                    &&& if pool > 0 {
                        succeeded(out, seq![Transfer::OutOfEscrow { to: c.creator, amount: pool }],
                            seq![Event::RevenuePoolRefunded { campaign_id: campaign_id, amount: pool }, cancelled])
                    } else {
                        succeeded(out, seq![], seq![cancelled])
                    }
                    &&& final(self)@ == cancelled_state(old(self)@, campaign_id)
                },
            },
    {
        let mut campaign = match self.load_campaign(campaign_id) {
            Some(c) => c,
            None => return fail(no_signers(), Error::CampaignNotFound),
        };
        let creator = campaign.creator;
        if let Err(e) = self.require_not_paused() {
            return fail(signer(creator), e);
        }
        if let Err(e) = require_active_campaign(&campaign) {
            return fail(signer(creator), e);
        }
        if campaign.funds_withdrawn {
            return fail(signer(creator), Error::CancellationNotAllowed);
        }
        let mut tally = self.load_tally(campaign_id);
        let pool = tally.revenue_pool;
        if pool > 0 {
            tally.revenue_pool = 0;
        }
        tally.approve_votes = 0;
        tally.reject_votes = 0;
        tally.approve_weight = 0;
        tally.reject_weight = 0;
        let amount_raised = campaign.amount_raised;
        campaign.is_cancelled = true;
        campaign.is_active = false;
        self.store_campaign(campaign_id, campaign);
        self.store_tally(campaign_id, tally);
        self.active_campaign_count = self.active_campaign_count.saturating_sub(1);
        self.cancelled_campaign_count = self.cancelled_campaign_count.saturating_add(1);
        assert(self@ =~= cancelled_state(old(self)@, campaign_id));
        let cancelled = Event::CampaignCancelled { campaign_id, creator, amount_raised };
        if pool > 0 {
            succeed(
                signer(creator),
                (),
                one_transfer(Transfer::OutOfEscrow { to: creator, amount: pool }),
                two_events(Event::RevenuePoolRefunded { campaign_id, amount: pool }, cancelled),
            )
        } else {
            succeed(signer(creator), (), no_transfers(), one_event(cancelled))
        }
    }

    /// The creator proposes `new_creator` as the campaign's next owner.
    pub fn initiate_campaign_transfer(&mut self, campaign_id: u32, new_creator: Address) -> (out: Outcome<()>)
        ensures
            out.signers@ == creator_signers(old(self)@, campaign_id),
            match initiate_transfer_error(old(self)@, campaign_id, new_creator) {
                Some(e) => failed(out, e) && final(self)@ == old(self)@,
                None => {
                    let c = old(self)@.campaign(campaign_id);
                    &&& succeeded(out, seq![], seq![Event::CampaignTransferInitiated {
                        campaign_id: campaign_id,
                        current_creator: c.creator,
                        new_creator: new_creator,
                    }])
                    &&& final(self)@ == transfer_pending_state(old(self)@, campaign_id, new_creator)
                },
            },
    {
        let mut campaign = match self.load_campaign(campaign_id) {
            Some(c) => c,
            None => return fail(no_signers(), Error::CampaignNotFound),
        };
        let creator = campaign.creator;
        if let Err(e) = self.require_not_paused() {
            return fail(signer(creator), e);
        }
        if let Err(e) = require_active_campaign(&campaign) {
            return fail(signer(creator), e);
        }
        if campaign.funds_withdrawn {
            return fail(signer(creator), Error::CampaignNotActive);
        }
        if new_creator == creator {
            return fail(signer(creator), Error::InvalidNewOwner);
        }
        if campaign.pending_creator.is_some() {
            return fail(signer(creator), Error::TransferAlreadyPending);
        }
        campaign.pending_creator = MaybePendingCreator::Pending(new_creator);
        self.store_campaign(campaign_id, campaign);
        let ev = Event::CampaignTransferInitiated { campaign_id, current_creator: creator, new_creator };
        succeed(signer(creator), (), no_transfers(), one_event(ev))
    }

    /// The proposed owner takes the campaign over.
    pub fn accept_campaign_transfer(&mut self, campaign_id: u32) -> (out: Outcome<()>)
        ensures
            out.signers@ == (if old(self)@.has_campaign(campaign_id) && campaign_is_active(old(self)@.campaign(campaign_id))
                && old(self)@.campaign(campaign_id).pending_creator is Pending {
                seq![old(self)@.campaign(campaign_id).pending_creator->Pending_0]
            } else {
                Seq::<Address>::empty()
            }),
            match accept_transfer_error(old(self)@, campaign_id) {
                Some(e) => failed(out, e) && final(self)@ == old(self)@,
                None => {
                    let c = old(self)@.campaign(campaign_id);
                    &&& succeeded(out, seq![], seq![Event::CampaignTransferCompleted {
                        campaign_id: campaign_id,
                        old_creator: c.creator,
                        new_creator: c.pending_creator->Pending_0,
                    }])
                    &&& final(self)@ == transferred_state(old(self)@, campaign_id)
                },
            },
    {
        let mut campaign = match self.load_campaign(campaign_id) {
            Some(c) => c,
            None => return fail(no_signers(), Error::CampaignNotFound),
        };
        if let Err(e) = require_active_campaign(&campaign) {
            return fail(no_signers(), e);
        }
        let pending = match campaign.pending_creator {
            MaybePendingCreator::Pending(a) => a,
            MaybePendingCreator::NotPending => return fail(no_signers(), Error::NoTransferPending),
        };
        if let Err(e) = self.require_not_paused() {
            return fail(signer(pending), e);
        }
        let old_creator = campaign.creator;
        self.creators.remove_first(old_creator, campaign_id);
        self.creators.push(pending, campaign_id);
        campaign.creator = pending;
        campaign.pending_creator = MaybePendingCreator::NotPending;
        self.store_campaign(campaign_id, campaign);
        assert(self@ =~= transferred_state(old(self)@, campaign_id));
        let ev = Event::CampaignTransferCompleted { campaign_id, old_creator, new_creator: pending };
        succeed(signer(pending), (), no_transfers(), one_event(ev))
    }

    /// The creator withdraws a proposed ownership transfer.
    pub fn cancel_campaign_transfer(&mut self, campaign_id: u32) -> (out: Outcome<()>)
        ensures
            out.signers@ == creator_signers(old(self)@, campaign_id),
            !old(self)@.has_campaign(campaign_id) ==> failed(out, Error::CampaignNotFound) && final(self)@ == old(self)@,
            old(self)@.has_campaign(campaign_id) && old(self)@.is_paused() ==>
                failed(out, Error::ContractPaused) && final(self)@ == old(self)@,
            old(self)@.has_campaign(campaign_id) && !old(self)@.is_paused()
                && old(self)@.campaign(campaign_id).pending_creator is NotPending ==>
                failed(out, Error::NoTransferPending) && final(self)@ == old(self)@,
            old(self)@.has_campaign(campaign_id) && !old(self)@.is_paused()
                && old(self)@.campaign(campaign_id).pending_creator is Pending ==> {
                let c = old(self)@.campaign(campaign_id);
                &&& succeeded(out, seq![], seq![Event::CampaignTransferCancelled {
                    campaign_id: campaign_id,
                    pending_creator: c.pending_creator->Pending_0,
                }])
                &&& final(self)@ == old(self)@.with_campaign(campaign_id,
                    (Campaign { pending_creator: MaybePendingCreator::NotPending, ..c }))
            },
    {
        let mut campaign = match self.load_campaign(campaign_id) {
            Some(c) => c,
            None => return fail(no_signers(), Error::CampaignNotFound),
        };
        let creator = campaign.creator;
        if let Err(e) = self.require_not_paused() {
            return fail(signer(creator), e);
        }
        let pending = match campaign.pending_creator {
            MaybePendingCreator::Pending(a) => a,
            MaybePendingCreator::NotPending => return fail(signer(creator), Error::NoTransferPending),
        };
        campaign.pending_creator = MaybePendingCreator::NotPending;
        self.store_campaign(campaign_id, campaign);
        let ev = Event::CampaignTransferCancelled { campaign_id, pending_creator: pending };
        succeed(signer(creator), (), no_transfers(), one_event(ev))
    }

    /// The creator rewrites title and description; allowed only before verification and
    /// before any contribution.
    pub fn update_campaign(&mut self, campaign_id: u32, title: String, description: String) -> (out: Outcome<()>)
        ensures
            out.signers@ == creator_signers(old(self)@, campaign_id),
            match update_error(old(self)@, campaign_id, title@, description@) {
                Some(e) => failed(out, e) && final(self)@ == old(self)@,
                None => {
                    &&& succeeded(out, seq![], seq![Event::CampaignUpdated {
                        campaign_id: campaign_id,
                        title: title,
                        description: description,
                    }])
                    &&& final(self)@ == old(self)@.with_campaign(campaign_id,
                        (Campaign { title: title, description: description, ..old(self)@.campaign(campaign_id) }))
                },
            },
    {
        let mut campaign = match self.load_campaign(campaign_id) {
            Some(c) => c,
            None => return fail(no_signers(), Error::CampaignNotFound),
        };
        let creator = campaign.creator;
        if let Err(e) = self.require_not_paused() {
            return fail(signer(creator), e);
        }
        if let Err(e) = require_unverified_campaign(&campaign) {
            return fail(signer(creator), e);
        }
        if campaign.amount_raised > 0 {
            return fail(signer(creator), Error::ValidationFailed);
        }
        if let Err(e) = require_active_campaign(&campaign) {
            return fail(signer(creator), e);
        }
        let title_len = title.as_str().len();
        let description_len = description.as_str().len();
        if title_len < crate::CAMPAIGN_TITLE_MIN_LEN as usize || title_len > crate::CAMPAIGN_TITLE_MAX_LEN as usize
            || description_len < crate::CAMPAIGN_DESCRIPTION_MIN_LEN as usize
            || description_len > crate::CAMPAIGN_DESCRIPTION_MAX_LEN as usize {
            return fail(signer(creator), Error::ValidationFailed);
        }
        let ev = Event::CampaignUpdated { campaign_id, title: title.clone(), description: description.clone() };
        campaign.title = title;
        campaign.description = description;
        self.store_campaign(campaign_id, campaign);
        succeed(signer(creator), (), no_transfers(), one_event(ev))
    }

    /// The creator rewrites the description of an active campaign that has not received
    /// any contribution yet.
    pub fn update_campaign_description(&mut self, campaign_id: u32, description: String) -> (out: Outcome<()>)
        ensures
            out.signers@ == creator_signers(old(self)@, campaign_id),
            match update_description_error(old(self)@, campaign_id, description@) {
                Some(e) => failed(out, e) && final(self)@ == old(self)@,
                None => {
                    &&& succeeded(out, seq![], seq![Event::CampaignDescriptionUpdated {
                        campaign_id: campaign_id,
                        description: description,
                    }])
                    &&& final(self)@ == old(self)@.with_campaign(campaign_id,
                        (Campaign { description: description, ..old(self)@.campaign(campaign_id) }))
                },
            },
    {
        let mut campaign = match self.load_campaign(campaign_id) {
            Some(c) => c,
            None => return fail(no_signers(), Error::CampaignNotFound),
        };
        let creator = campaign.creator;
        if let Err(e) = self.require_not_paused() {
            return fail(signer(creator), e);
        }
        if let Err(e) = require_active_campaign(&campaign) {
            return fail(signer(creator), e);
        }
        let description_len = description.as_str().len();
        if campaign.amount_raised > 0 || description_len < crate::CAMPAIGN_DESCRIPTION_MIN_LEN as usize
            || description_len > crate::CAMPAIGN_DESCRIPTION_MAX_LEN as usize {
            return fail(signer(creator), Error::ValidationFailed);
        }
        let ev = Event::CampaignDescriptionUpdated { campaign_id, description: description.clone() };
        campaign.description = description;
        self.store_campaign(campaign_id, campaign);
        succeed(signer(creator), (), no_transfers(), one_event(ev))
    }

    /// The creator extends the deadline once, by 1 to 30 days, within the category's
    /// duration cap counted from the campaign's start.
    pub fn extend_campaign_deadline(&mut self, campaign_id: u32, additional_days: u64, ledger: Ledger) -> (out: Outcome<()>)
        ensures
            out.signers@ == creator_signers(old(self)@, campaign_id),
            match extend_error(old(self)@, campaign_id, additional_days, ledger.timestamp) {
                Some(e) => failed(out, e) && final(self)@ == old(self)@,
                None => {
                    let c = old(self)@.campaign(campaign_id);
                    let new_deadline = extended_deadline(c, additional_days) as u64;
                    &&& succeeded(out, seq![], seq![Event::CampaignDeadlineExtended {
                        campaign_id: campaign_id,
                        old_deadline: c.deadline,
                        new_deadline: new_deadline,
                    }])
                    &&& final(self)@ == extended_state(old(self)@, campaign_id, additional_days)
                },
            },
    {
        let mut campaign = match self.load_campaign(campaign_id) {
            Some(c) => c,
            None => return fail(no_signers(), Error::CampaignNotFound),
        };
        let creator = campaign.creator;
        if let Err(e) = self.require_not_paused() {
            return fail(signer(creator), e);
        }
        if let Err(e) = require_active_campaign(&campaign) {
            return fail(signer(creator), e);
        }
        if campaign.deadline_extended {
            return fail(signer(creator), Error::DeadlineAlreadyExtended);
        }
        if ledger.timestamp >= campaign.deadline {
            return fail(signer(creator), Error::DeadlinePassed);
        }
        if additional_days == 0 || additional_days > MAX_EXTENSION_DAYS {
            return fail(signer(creator), Error::ExtensionTooLong);
        }
        let old_deadline = campaign.deadline;
        let new_deadline = match old_deadline.checked_add(additional_days * crate::SECONDS_PER_DAY) {
            Some(d) => d,
            None => return fail(signer(creator), Error::Overflow),
        };
        let start_time = match self.load_tally(campaign_id).start_time {
            Some(t) => t,
            None => return fail(signer(creator), Error::InvalidDuration),
        };
        let category_cap = self.max_duration_days(campaign.category);
        let total_seconds = match new_deadline.checked_sub(start_time) {
            Some(d) => d,
            None => return fail(signer(creator), Error::Overflow),
        };
        let total_days = total_seconds / crate::SECONDS_PER_DAY;
        if total_days > category_cap {
            return fail(signer(creator), Error::InvalidDuration);
        }
        campaign.deadline = new_deadline;
        campaign.deadline_extended = true;
        self.store_campaign(campaign_id, campaign);
        let ev = Event::CampaignDeadlineExtended { campaign_id, old_deadline, new_deadline };
        succeed(signer(creator), (), no_transfers(), one_event(ev))
    }
}

} // verus!
