//! Initialisation and the admin's governance calls.
use vstd::prelude::*;

use crate::lifecycle::{campaign_is_active, require_active_campaign};
use crate::state::{
    admin_signers, fail, failed, no_events, no_signers, no_transfers, one_event, signer, succeed,
    succeeded, two_events, without_votes, CampaignTally, ContractView, ProofOfHeart,
};
use crate::types::{category_number, Address, Campaign, Category, Error, Event, Ledger, Outcome};
use crate::voting::clear_votes;

verus! {

/// The state right after a successful `init`.
pub open spec fn initialized_state(s: ContractView, admin: Address, token: Address, platform_fee: u32) -> ContractView {
    ContractView {
        initialized: true,
        admin: admin,
        pending_admin: None,
        token: token,
        platform_fee: platform_fee,
        campaign_count: 0,
        total_raised_global: 0,
        version: crate::CONTRACT_VERSION,
        min_funding_goal: Some(crate::CAMPAIGN_FUNDING_GOAL_MIN),
        min_votes_quorum: Some(crate::voting::DEFAULT_MIN_VOTES_QUORUM),
        approval_threshold_bps: Some(crate::voting::DEFAULT_APPROVAL_THRESHOLD_BPS),
        vesting_delay_days: 0,
        reserve_bps: 0,
        ..s
    }
}

/// A minimum voting balance above this draws a warning event.
pub const HIGH_VOTING_BALANCE: i128 = 1_000_000_000_000_000;

/// How long a proposed token move waits before it can be accepted, in seconds (a week).
pub const TOKEN_UPDATE_DELAY: u64 = 604800;

/// Whether a quorum and an approval threshold are acceptable voting parameters.
pub open spec fn voting_params_valid(min_votes_quorum: u32, approval_threshold_bps: u32) -> bool {
    &&& 0 < min_votes_quorum <= crate::voting::MAX_VOTES_QUORUM
    &&& crate::voting::MIN_APPROVAL_THRESHOLD_BPS <= approval_threshold_bps <= 10000
}

/// The error `accept_token_update` answers with, if any.
pub open spec fn accept_token_error(s: ContractView, caller: Address, now: u64) -> Option<Error> {
    if caller != s.admin {
        Some(Error::NotAuthorized)
    } else if s.pending_token is None || s.pending_token_release is None {
        Some(Error::ValidationFailed)
    } else if now < s.pending_token_release.unwrap() {
        Some(Error::ValidationFailed)
    } else if s.active_campaign_count > 0 || s.total_raised_global != 0 {
        Some(Error::ValidationFailed)
    } else {
        None
    }
}

/// The error `set_category_duration_cap` answers with, if any.
pub open spec fn duration_cap_error(s: ContractView, caller: Address, max_days: u64) -> Option<Error> {
    if caller != s.admin {
        Some(Error::NotAuthorized)
    } else if !(crate::CAMPAIGN_DURATION_MIN_DAYS <= max_days <= crate::CAMPAIGN_DURATION_MAX_DAYS) {
        Some(Error::ValidationFailed)
    } else {
        None
    }
}

/// The state with the duration cap of category `c` set to `cap`.
pub open spec fn with_duration_cap(s: ContractView, c: Category, cap: Option<u64>) -> ContractView {
    match c {
        Category::Learner => ContractView { learner_cap: cap, ..s },
        Category::Educator => ContractView { educator_cap: cap, ..s },
        Category::Publisher => ContractView { publisher_cap: cap, ..s },
        Category::EducationalStartup => ContractView { startup_cap: cap, ..s },
    }
}

/// The state with `new_admin` nominated to take over as admin.
pub open spec fn nominated_state(s: ContractView, new_admin: Address) -> ContractView {
    ContractView { pending_admin: Some(new_admin), ..s }
}

/// The state after the nominated admin took over.
pub open spec fn admin_accepted_state(s: ContractView) -> ContractView {
    ContractView { admin: s.pending_admin.unwrap(), pending_admin: None, ..s }
}

/// The state with a move to `new_token` proposed, acceptable from `release` on.
pub open spec fn token_proposed_state(s: ContractView, new_token: Address, release: u64) -> ContractView {
    ContractView { pending_token: Some(new_token), pending_token_release: Some(release), ..s }
}

/// The state after the proposed token move was completed.
pub open spec fn token_accepted_state(s: ContractView) -> ContractView {
    ContractView { token: s.pending_token.unwrap(), pending_token: None, pending_token_release: None, ..s }
}

/// The most voters one purge clears.
pub const MAX_VOTERS_PER_CALL: usize = 50;

/// The error `purge_voting_state` answers with, if any, for a batch of `n` voters.
pub open spec fn purge_error(s: ContractView, id: u32, n: nat) -> Option<Error> {
    let c = s.campaign(id);
    if !s.has_campaign(id) {
        Some(Error::CampaignNotFound)
    } else if !c.funds_withdrawn && !c.is_cancelled {
        Some(Error::ValidationFailed)
    } else if n == 0 || n > MAX_VOTERS_PER_CALL {
        Some(Error::ValidationFailed)
    } else {
        None
    }
}

/// The error `resume_campaign` answers with, if any.
pub open spec fn resume_error(s: ContractView, id: u32, caller: Address) -> Option<Error> {
    let c = s.campaign(id);
    if !s.has_campaign(id) {
        Some(Error::CampaignNotFound)
    } else if !campaign_is_active(c) {
        Some(Error::CampaignNotActive)
    } else if caller != c.creator && caller != s.admin {
        Some(Error::NotAuthorized)
    } else if !s.auto_paused {
        Some(Error::ValidationFailed)
    } else {
        None
    }
}

impl ProofOfHeart {
    /// Sets up the platform: its admin, its token and its fee.  `token_is_valid` says
    /// whether `token` answered the `decimals` query of the token interface.
    pub fn init(&mut self, admin: Address, token: Address, platform_fee: u32, token_is_valid: bool) -> (out: Outcome<()>)
        ensures
            out.signers@ == (if old(self)@.initialized { Seq::<Address>::empty() } else { seq![admin] }),
            old(self)@.initialized ==> failed(out, Error::AlreadyInitialized) && final(self)@ == old(self)@,
            !old(self)@.initialized && platform_fee > crate::PLATFORM_FEE_MAX_BPS ==>
                failed(out, Error::InvalidPlatformFee) && final(self)@ == old(self)@,
            !old(self)@.initialized && platform_fee <= crate::PLATFORM_FEE_MAX_BPS && !token_is_valid ==>
                failed(out, Error::InvalidTokenContract) && final(self)@ == old(self)@,
            !old(self)@.initialized && platform_fee <= crate::PLATFORM_FEE_MAX_BPS && token_is_valid ==> {
                &&& succeeded(out, seq![], seq![Event::Initialized {
                    admin: admin,
                    token: token,
                    platform_fee: platform_fee,
                    min_votes_quorum: crate::voting::DEFAULT_MIN_VOTES_QUORUM,
                    approval_threshold_bps: crate::voting::DEFAULT_APPROVAL_THRESHOLD_BPS,
                    version: crate::CONTRACT_VERSION,
                }])
                &&& final(self)@ == initialized_state(old(self)@, admin, token, platform_fee)
            },
    {
        if self.initialized {
            return fail(no_signers(), Error::AlreadyInitialized);
        }
        if platform_fee > crate::PLATFORM_FEE_MAX_BPS {
            return fail(signer(admin), Error::InvalidPlatformFee);
        }
        if !token_is_valid {
            return fail(signer(admin), Error::InvalidTokenContract);
        }
        self.initialized = true;
        self.admin = admin;
        self.pending_admin = None;
        self.token = token;
        self.platform_fee = platform_fee;
        self.campaign_count = 0;
        self.total_raised_global = 0;
        self.version = crate::CONTRACT_VERSION;
        self.min_funding_goal = Some(crate::CAMPAIGN_FUNDING_GOAL_MIN);
        self.min_votes_quorum = Some(crate::voting::DEFAULT_MIN_VOTES_QUORUM);
        self.approval_threshold_bps = Some(crate::voting::DEFAULT_APPROVAL_THRESHOLD_BPS);
        self.vesting_delay_days = 0;
        self.reserve_bps = 0;
        let ev = Event::Initialized {
            admin,
            token,
            platform_fee,
            min_votes_quorum: crate::voting::DEFAULT_MIN_VOTES_QUORUM,
            approval_threshold_bps: crate::voting::DEFAULT_APPROVAL_THRESHOLD_BPS,
            version: crate::CONTRACT_VERSION,
        };
        succeed(signer(admin), (), no_transfers(), one_event(ev))
    }

    /// The admin halts every state-changing call of contributors and creators.
    pub fn pause(&mut self) -> (out: Outcome<()>)
        requires
            old(self)@.initialized,
        ensures
            out.signers@ == seq![old(self)@.admin],
            succeeded(out, seq![], seq![Event::ContractPaused { admin: old(self)@.admin }]),
            final(self)@ == (ContractView { paused: true, ..old(self)@ }),
    {
        self.paused = true;
        let admin = self.admin;
        succeed(signer(admin), (), no_transfers(), one_event(Event::ContractPaused { admin }))
    }

    /// The admin lifts both the manual and the automatic pause.
    pub fn unpause(&mut self) -> (out: Outcome<()>)
        requires
            old(self)@.initialized,
        ensures
            out.signers@ == seq![old(self)@.admin],
            succeeded(out, seq![], seq![Event::ContractUnpaused { admin: old(self)@.admin }]),
            final(self)@ == (ContractView { paused: false, auto_paused: false, ..old(self)@ }),
    {
        self.paused = false;
        self.auto_paused = false;
        let admin = self.admin;
        succeed(signer(admin), (), no_transfers(), one_event(Event::ContractUnpaused { admin }))
    }

    /// Whether the platform is paused, by the admin or automatically.
    pub fn is_paused(&self) -> (b: bool)
        ensures
            b == self@.is_paused(),
    {
        self.paused || self.auto_paused
    }

    /// Whether the admin has closed the creation of new campaigns.
    pub fn is_creation_disabled(&self) -> (b: bool)
        ensures
            b == self@.creation_disabled,
    {
        self.creation_disabled
    }

    /// The admin opens or closes the creation of new campaigns, also while paused.
    pub fn set_creation_disabled(&mut self, disabled: bool) -> (out: Outcome<()>)
        requires
            old(self)@.initialized,
        ensures
            out.signers@ == seq![old(self)@.admin],
            succeeded(out, seq![], seq![Event::CreationDisabledUpdated { admin: old(self)@.admin, disabled: disabled }]),
            final(self)@ == (ContractView { creation_disabled: disabled, ..old(self)@ }),
    {
        self.creation_disabled = disabled;
        let admin = self.admin;
        succeed(signer(admin), (), no_transfers(), one_event(Event::CreationDisabledUpdated { admin, disabled }))
    }

    /// The admin sets the platform fee, in basis points, also while paused.
    pub fn update_platform_fee(&mut self, new_fee: u32) -> (out: Outcome<()>)
        requires
            old(self)@.initialized,
        ensures
            out.signers@ == seq![old(self)@.admin],
            new_fee > crate::PLATFORM_FEE_MAX_BPS ==> failed(out, Error::InvalidPlatformFee) && final(self)@ == old(self)@,
            new_fee <= crate::PLATFORM_FEE_MAX_BPS ==> {
                &&& succeeded(out, seq![], seq![Event::FeeUpdated { old_fee: old(self)@.platform_fee, new_fee: new_fee }])
                &&& final(self)@ == (ContractView { platform_fee: new_fee, ..old(self)@ })
            },
    {
        let admin = self.admin;
        if new_fee > crate::PLATFORM_FEE_MAX_BPS {
            return fail(signer(admin), Error::InvalidPlatformFee);
        }
        let old_fee = self.platform_fee;
        self.platform_fee = new_fee;
        succeed(signer(admin), (), no_transfers(), one_event(Event::FeeUpdated { old_fee, new_fee }))
    }

    /// The admin fixes the fee of one campaign, overriding the platform fee.
    pub fn set_campaign_fee_override(&mut self, caller: Address, campaign_id: u32, fee_bps: u32) -> (out: Outcome<()>)
        ensures
            out.signers@ == admin_signers(old(self)@, caller),
            caller != old(self)@.admin ==> failed(out, Error::NotAuthorized) && final(self)@ == old(self)@,
            caller == old(self)@.admin && !old(self)@.has_campaign(campaign_id) ==>
                failed(out, Error::CampaignNotFound) && final(self)@ == old(self)@,
            caller == old(self)@.admin && old(self)@.has_campaign(campaign_id) && fee_bps > crate::PLATFORM_FEE_MAX_BPS ==>
                failed(out, Error::ValidationFailed) && final(self)@ == old(self)@,
            caller == old(self)@.admin && old(self)@.has_campaign(campaign_id) && fee_bps <= crate::PLATFORM_FEE_MAX_BPS ==> {
                &&& succeeded(out, seq![], seq![Event::CampaignFeeOverrideSet { campaign_id: campaign_id, fee_bps: fee_bps }])
                &&& final(self)@ == old(self)@.with_campaign(campaign_id,
                    (Campaign { fee_override: Some(fee_bps), ..old(self)@.campaign(campaign_id) }))
            },
    {
        if let Err(e) = self.assert_admin(caller) {
            return fail(no_signers(), e);
        }
        let mut campaign = match self.load_campaign(campaign_id) {
            Some(c) => c,
            None => return fail(signer(caller), Error::CampaignNotFound),
        };
        if fee_bps > crate::PLATFORM_FEE_MAX_BPS {
            return fail(signer(caller), Error::ValidationFailed);
        }
        campaign.fee_override = Some(fee_bps);
        self.store_campaign(campaign_id, campaign);
        succeed(signer(caller), (), no_transfers(), one_event(Event::CampaignFeeOverrideSet { campaign_id, fee_bps }))
    }

    /// The admin caps how many days campaigns of one category may run.
    pub fn set_category_duration_cap(&mut self, caller: Address, category: Category, max_days: u64) -> (out: Outcome<()>)
        ensures
            out.signers@ == admin_signers(old(self)@, caller),
            match duration_cap_error(old(self)@, caller, max_days) {
                Some(e) => failed(out, e) && final(self)@ == old(self)@,
                None => {
                    &&& succeeded(out, seq![], seq![Event::CategoryDurationCapSet {
                        category: category_number(category),
                        max_days: max_days,
                    }])
                    &&& final(self)@ == with_duration_cap(old(self)@, category, Some(max_days))
                },
            },
    {
        if let Err(e) = self.assert_admin(caller) {
            return fail(no_signers(), e);
        }
        if max_days < crate::CAMPAIGN_DURATION_MIN_DAYS || max_days > crate::CAMPAIGN_DURATION_MAX_DAYS {
            return fail(signer(caller), Error::ValidationFailed);
        }
        self.set_duration_cap(category, Some(max_days));
        let ev = Event::CategoryDurationCapSet { category: category.number(), max_days };
        succeed(signer(caller), (), no_transfers(), one_event(ev))
    }

    /// The admin removes the duration cap of one category.
    pub fn remove_category_duration_cap(&mut self, caller: Address, category: Category) -> (out: Outcome<()>)
        ensures
            out.signers@ == admin_signers(old(self)@, caller),
            caller != old(self)@.admin ==> failed(out, Error::NotAuthorized) && final(self)@ == old(self)@,
            caller == old(self)@.admin ==> {
                &&& succeeded(out, seq![], seq![Event::CategoryDurationCapRemoved { category: category_number(category) }])
                &&& final(self)@ == with_duration_cap(old(self)@, category, None)
            },
    {
        if let Err(e) = self.assert_admin(caller) {
            return fail(no_signers(), e);
        }
        self.set_duration_cap(category, None);
        let ev = Event::CategoryDurationCapRemoved { category: category.number() };
        succeed(signer(caller), (), no_transfers(), one_event(ev))
    }

    fn set_duration_cap(&mut self, category: Category, cap: Option<u64>)
        ensures
            final(self)@ == with_duration_cap(old(self)@, category, cap),
    {
        match category {
            Category::Learner => self.learner_cap = cap,
            Category::Educator => self.educator_cap = cap,
            Category::Publisher => self.publisher_cap = cap,
            Category::EducationalStartup => self.startup_cap = cap,
        }
    }

    /// The admin sets the smallest funding goal a campaign may have.
    pub fn set_min_campaign_funding_goal(&mut self, caller: Address, min_goal: i128) -> (out: Outcome<()>)
        ensures
            out.signers@ == admin_signers(old(self)@, caller),
            caller != old(self)@.admin ==> failed(out, Error::NotAuthorized) && final(self)@ == old(self)@,
            caller == old(self)@.admin && min_goal <= 0 ==>
                failed(out, Error::FundingGoalMustBePositive) && final(self)@ == old(self)@,
            caller == old(self)@.admin && min_goal > 0 ==> {
                &&& succeeded(out, seq![], seq![Event::MinCampaignFundingGoalUpdated {
                    old_min: old(self)@.effective_min_goal(),
                    new_min: min_goal,
                }])
                &&& final(self)@ == (ContractView { min_funding_goal: Some(min_goal), ..old(self)@ })
            },
    {
        if let Err(e) = self.assert_admin(caller) {
            return fail(no_signers(), e);
        }
        if min_goal <= 0 {
            return fail(signer(caller), Error::FundingGoalMustBePositive);
        }
        let old_min = self.effective_min_goal();
        self.min_funding_goal = Some(min_goal);
        succeed(signer(caller), (), no_transfers(), one_event(Event::MinCampaignFundingGoalUpdated { old_min, new_min: min_goal }))
    }

    /// The admin sets the largest funding goal a campaign may have.
    pub fn set_max_campaign_funding_goal(&mut self, caller: Address, max_goal: i128) -> (out: Outcome<()>)
        ensures
            out.signers@ == admin_signers(old(self)@, caller),
            caller != old(self)@.admin ==> failed(out, Error::NotAuthorized) && final(self)@ == old(self)@,
            caller == old(self)@.admin && max_goal <= 0 ==>
                failed(out, Error::FundingGoalMustBePositive) && final(self)@ == old(self)@,
            caller == old(self)@.admin && max_goal > 0 && max_goal < old(self)@.effective_min_goal() ==>
                failed(out, Error::ValidationFailed) && final(self)@ == old(self)@,
            caller == old(self)@.admin && max_goal > 0 && max_goal >= old(self)@.effective_min_goal() ==> {
                &&& succeeded(out, seq![], seq![Event::MaxCampaignFundingGoalUpdated {
                    old_max: old(self)@.effective_max_goal(),
                    new_max: max_goal,
                }])
                &&& final(self)@ == (ContractView { max_funding_goal: Some(max_goal), ..old(self)@ })
            },
    {
        if let Err(e) = self.assert_admin(caller) {
            return fail(no_signers(), e);
        }
        if max_goal <= 0 {
            return fail(signer(caller), Error::FundingGoalMustBePositive);
        }
        if max_goal < self.effective_min_goal() {
            return fail(signer(caller), Error::ValidationFailed);
        }
        let old_max = self.effective_max_goal();
        self.max_funding_goal = Some(max_goal);
        succeed(signer(caller), (), no_transfers(), one_event(Event::MaxCampaignFundingGoalUpdated { old_max, new_max: max_goal }))
    }

    /// The admin moves the stored state version from `expected_old_version` to the current one.
    pub fn migrate(&mut self, caller: Address, expected_old_version: u32) -> (out: Outcome<()>)
        ensures
            out.signers@ == admin_signers(old(self)@, caller),
            caller != old(self)@.admin ==> failed(out, Error::NotAuthorized) && final(self)@ == old(self)@,
            caller == old(self)@.admin && old(self)@.version != expected_old_version ==>
                failed(out, Error::ValidationFailed) && final(self)@ == old(self)@,
            caller == old(self)@.admin && old(self)@.version == expected_old_version ==> {
                &&& succeeded(out, seq![], seq![Event::Migrated {
                    from_version: expected_old_version,
                    to_version: crate::CONTRACT_VERSION,
                }])
                &&& final(self)@ == (ContractView { version: crate::CONTRACT_VERSION, ..old(self)@ })
            },
    {
        if let Err(e) = self.assert_admin(caller) {
            return fail(no_signers(), e);
        }
        if self.version != expected_old_version {
            return fail(signer(caller), Error::ValidationFailed);
        }
        self.version = crate::CONTRACT_VERSION;
        let ev = Event::Migrated { from_version: expected_old_version, to_version: crate::CONTRACT_VERSION };
        succeed(signer(caller), (), no_transfers(), one_event(ev))
    }

    /// The admin sets the quorum and the approval threshold of community votes,
    /// also while paused.
    pub fn set_voting_params(&mut self, caller: Address, min_votes_quorum: u32, approval_threshold_bps: u32) -> (out: Outcome<()>)
        ensures
            out.signers@ == admin_signers(old(self)@, caller),
            caller != old(self)@.admin ==> failed(out, Error::NotAuthorized) && final(self)@ == old(self)@,
            caller == old(self)@.admin && !voting_params_valid(min_votes_quorum, approval_threshold_bps) ==>
                failed(out, Error::ValidationFailed) && final(self)@ == old(self)@,
            caller == old(self)@.admin && voting_params_valid(min_votes_quorum, approval_threshold_bps) ==> {
                &&& succeeded(out, seq![], seq![Event::VotingParamsUpdated {
                    admin: caller,
                    old_quorum: old(self)@.quorum(),
                    new_quorum: min_votes_quorum,
                    old_threshold: old(self)@.threshold(),
                    new_threshold: approval_threshold_bps,
                }])
                &&& final(self)@ == (ContractView {
                    min_votes_quorum: Some(min_votes_quorum),
                    approval_threshold_bps: Some(approval_threshold_bps),
                    ..old(self)@
                })
            },
    {
        if let Err(e) = self.assert_admin(caller) {
            return fail(no_signers(), e);
        }
        let old_quorum = self.quorum();
        let old_threshold = self.threshold();
        if let Err(e) = self.set_params(min_votes_quorum, approval_threshold_bps) {
            return fail(signer(caller), e);
        }
        let ev = Event::VotingParamsUpdated {
            admin: caller,
            old_quorum,
            new_quorum: min_votes_quorum,
            old_threshold,
            new_threshold: approval_threshold_bps,
        };
        succeed(signer(caller), (), no_transfers(), one_event(ev))
    }

    /// The admin sets the token balance a voter needs to vote.
    pub fn set_min_voting_balance(&mut self, caller: Address, min_balance: i128) -> (out: Outcome<()>)
        ensures
            out.signers@ == admin_signers(old(self)@, caller),
            caller != old(self)@.admin ==> failed(out, Error::NotAuthorized) && final(self)@ == old(self)@,
            caller == old(self)@.admin && min_balance < 0 ==>
                failed(out, Error::ValidationFailed) && final(self)@ == old(self)@,
            caller == old(self)@.admin && min_balance >= 0 ==> {
                let updated = Event::MinVotingBalanceUpdated {
                    admin: caller,
                    old_balance: old(self)@.min_voting_balance,
                    new_balance: min_balance,
                };
                &&& succeeded(out, seq![], if min_balance > HIGH_VOTING_BALANCE {
                    seq![Event::HighVotingBalanceWarning { min_balance: min_balance }, updated]
                } else {
                    seq![updated]
                })
                &&& final(self)@ == (ContractView { min_voting_balance: min_balance, ..old(self)@ })
            },
    {
        if let Err(e) = self.assert_admin(caller) {
            return fail(no_signers(), e);
        }
        if min_balance < 0 {
            return fail(signer(caller), Error::ValidationFailed);
        }
        let old_balance = self.min_voting_balance;
        self.min_voting_balance = min_balance;
        let updated = Event::MinVotingBalanceUpdated { admin: caller, old_balance, new_balance: min_balance };
        let events = if min_balance > HIGH_VOTING_BALANCE {
            two_events(Event::HighVotingBalanceWarning { min_balance }, updated)
        } else {
            one_event(updated)
        };
        succeed(signer(caller), (), no_transfers(), events)
    }

    /// The admin proposes to move the platform to `new_token`; the move can be accepted a
    /// week later.  `token_is_valid` says whether `new_token` answered the `decimals` query
    /// of the token interface.
    pub fn propose_token_update(&mut self, caller: Address, new_token: Address, token_is_valid: bool, ledger: Ledger) -> (out: Outcome<()>)
        ensures
            out.signers@ == admin_signers(old(self)@, caller),
            caller != old(self)@.admin ==> failed(out, Error::NotAuthorized) && final(self)@ == old(self)@,
            caller == old(self)@.admin && !token_is_valid ==>
                failed(out, Error::InvalidTokenContract) && final(self)@ == old(self)@,
            caller == old(self)@.admin && token_is_valid && ledger.timestamp + TOKEN_UPDATE_DELAY > u64::MAX ==>
                failed(out, Error::ValidationFailed) && final(self)@ == old(self)@,
            caller == old(self)@.admin && token_is_valid && ledger.timestamp + TOKEN_UPDATE_DELAY <= u64::MAX ==> {
                let release = (ledger.timestamp + TOKEN_UPDATE_DELAY) as u64;
                &&& succeeded(out, seq![], seq![Event::TokenUpdateProposed { new_token: new_token, release_after: release }])
                &&& final(self)@ == token_proposed_state(old(self)@, new_token, release)
            },
    {
        if let Err(e) = self.assert_admin(caller) {
            return fail(no_signers(), e);
        }
        if !token_is_valid {
            return fail(signer(caller), Error::InvalidTokenContract);
        }
        let release_after = match ledger.timestamp.checked_add(TOKEN_UPDATE_DELAY) {
            Some(t) => t,
            None => return fail(signer(caller), Error::ValidationFailed),
        };
        self.pending_token = Some(new_token);
        self.pending_token_release = Some(release_after);
        succeed(signer(caller), (), no_transfers(), one_event(Event::TokenUpdateProposed { new_token, release_after }))
    }

    /// The admin completes a proposed token move once its week has passed and no
    /// campaign is active and no tokens remain escrowed.
    pub fn accept_token_update(&mut self, caller: Address, ledger: Ledger) -> (out: Outcome<()>)
        ensures
            out.signers@ == admin_signers(old(self)@, caller),
            match accept_token_error(old(self)@, caller, ledger.timestamp) {
                Some(e) => failed(out, e) && final(self)@ == old(self)@,
                None => {
                    &&& succeeded(out, seq![], seq![Event::TokenUpdateAccepted {
                        old_token: old(self)@.token,
                        new_token: old(self)@.pending_token.unwrap(),
                    }])
                    &&& final(self)@ == token_accepted_state(old(self)@)
                },
            },
    {
        if let Err(e) = self.assert_admin(caller) {
            return fail(no_signers(), e);
        }
        let new_token = match self.pending_token {
            Some(t) => t,
            None => return fail(signer(caller), Error::ValidationFailed),
        };
        let release_after = match self.pending_token_release {
            Some(t) => t,
            None => return fail(signer(caller), Error::ValidationFailed),
        };
        if ledger.timestamp < release_after {
            return fail(signer(caller), Error::ValidationFailed);
        }
        if self.active_campaign_count > 0 || self.total_raised_global != 0 {
            return fail(signer(caller), Error::ValidationFailed);
        }
        let old_token = self.token;
        self.token = new_token;
        self.pending_token = None;
        self.pending_token_release = None;
        succeed(signer(caller), (), no_transfers(), one_event(Event::TokenUpdateAccepted { old_token, new_token }))
    }

    /// The admin withdraws a proposed token move.
    pub fn cancel_token_update(&mut self, caller: Address) -> (out: Outcome<()>)
        ensures
            out.signers@ == admin_signers(old(self)@, caller),
            caller != old(self)@.admin ==> failed(out, Error::NotAuthorized) && final(self)@ == old(self)@,
            caller == old(self)@.admin && old(self)@.pending_token is None ==>
                failed(out, Error::ValidationFailed) && final(self)@ == old(self)@,
            caller == old(self)@.admin && old(self)@.pending_token is Some ==> {
                &&& succeeded(out, seq![], seq![Event::TokenUpdateCancelled])
                &&& final(self)@ == (ContractView { pending_token: None, pending_token_release: None, ..old(self)@ })
            },
    {
        if let Err(e) = self.assert_admin(caller) {
            return fail(no_signers(), e);
        }
        if self.pending_token.is_none() {
            return fail(signer(caller), Error::ValidationFailed);
        }
        self.pending_token = None;
        self.pending_token_release = None;
        succeed(signer(caller), (), no_transfers(), one_event(Event::TokenUpdateCancelled))
    }

    /// The admin nominates `new_admin`, who takes over by accepting; a nomination made
    /// earlier is dropped.  Also allowed while paused.
    pub fn initiate_admin_transfer(&mut self, caller: Address, new_admin: Address) -> (out: Outcome<()>)
        ensures
            out.signers@ == admin_signers(old(self)@, caller),
            caller != old(self)@.admin ==> failed(out, Error::NotAuthorized) && final(self)@ == old(self)@,
            caller == old(self)@.admin && new_admin == old(self)@.admin ==>
                failed(out, Error::InvalidNewOwner) && final(self)@ == old(self)@,
            caller == old(self)@.admin && new_admin != old(self)@.admin ==> {
                let initiated = Event::AdminTransferInitiated { current_admin: old(self)@.admin, new_admin: new_admin };
                &&& succeeded(out, seq![], match old(self)@.pending_admin {
                    Some(p) => seq![Event::AdminTransferCancelled { admin: p }, initiated],
                    None => seq![initiated],
                })
                &&& final(self)@ == nominated_state(old(self)@, new_admin)
            },
    {
        if let Err(e) = self.assert_admin(caller) {
            return fail(no_signers(), e);
        }
        let current_admin = self.admin;
        if new_admin == current_admin {
            return fail(signer(caller), Error::InvalidNewOwner);
        }
        let initiated = Event::AdminTransferInitiated { current_admin, new_admin };
        let events = match self.pending_admin {
            Some(p) => two_events(Event::AdminTransferCancelled { admin: p }, initiated),
            None => one_event(initiated),
        };
        self.pending_admin = Some(new_admin);
        succeed(signer(caller), (), no_transfers(), events)
    }

    /// The current admin nominates `new_admin` (the first step of an admin transfer).
    pub fn update_admin(&mut self, new_admin: Address) -> (out: Outcome<()>)
        requires
            old(self)@.initialized,
        ensures
            out.signers@ == seq![old(self)@.admin],
            new_admin == old(self)@.admin ==> failed(out, Error::InvalidNewOwner) && final(self)@ == old(self)@,
            new_admin != old(self)@.admin ==> {
                let initiated = Event::AdminTransferInitiated { current_admin: old(self)@.admin, new_admin: new_admin };
                &&& succeeded(out, seq![], match old(self)@.pending_admin {
                    Some(p) => seq![Event::AdminTransferCancelled { admin: p }, initiated],
                    None => seq![initiated],
                })
                &&& final(self)@ == nominated_state(old(self)@, new_admin)
            },
    {
        let admin = self.admin;
        self.initiate_admin_transfer(admin, new_admin)
    }

    /// The nominated account becomes the admin.  Also allowed while paused.
    pub fn accept_admin_transfer(&mut self) -> (out: Outcome<()>)
        ensures
            out.signers@ == (match old(self)@.pending_admin {
                Some(p) => seq![p],
                None => Seq::<Address>::empty(),
            }),
            old(self)@.pending_admin is None ==> failed(out, Error::NoTransferPending) && final(self)@ == old(self)@,
            old(self)@.pending_admin is Some ==> {
                let p = old(self)@.pending_admin.unwrap();
                &&& succeeded(out, seq![], seq![Event::AdminUpdated { old_admin: old(self)@.admin, new_admin: p }])
                &&& final(self)@ == admin_accepted_state(old(self)@)
            },
    {
        let pending = match self.pending_admin {
            Some(p) => p,
            None => return fail(no_signers(), Error::NoTransferPending),
        };
        let old_admin = self.admin;
        self.admin = pending;
        self.pending_admin = None;
        succeed(signer(pending), (), no_transfers(), one_event(Event::AdminUpdated { old_admin, new_admin: pending }))
    }

    /// The admin drops the nomination of a new admin.  Also allowed while paused.
    pub fn cancel_admin_transfer(&mut self, caller: Address) -> (out: Outcome<()>)
        ensures
            out.signers@ == admin_signers(old(self)@, caller),
            caller != old(self)@.admin ==> failed(out, Error::NotAuthorized) && final(self)@ == old(self)@,
            caller == old(self)@.admin && old(self)@.pending_admin is None ==>
                failed(out, Error::NoTransferPending) && final(self)@ == old(self)@,
            caller == old(self)@.admin && old(self)@.pending_admin is Some ==> {
                &&& succeeded(out, seq![], seq![Event::AdminTransferCancelled { admin: caller }])
                &&& final(self)@ == (ContractView { pending_admin: None, ..old(self)@ })
            },
    {
        if let Err(e) = self.assert_admin(caller) {
            return fail(no_signers(), e);
        }
        if self.pending_admin.is_none() {
            return fail(signer(caller), Error::NoTransferPending);
        }
        self.pending_admin = None;
        succeed(signer(caller), (), no_transfers(), one_event(Event::AdminTransferCancelled { admin: caller }))
    }

    /// The admin clears the has-voted marks of `voters` on a campaign whose funds were
    /// withdrawn or that was cancelled, fifty at most per call; with `finalize_aggregate`
    /// it also clears the campaign's vote counts and weights.
    pub fn purge_voting_state(&mut self, campaign_id: u32, voters: &Vec<Address>, finalize_aggregate: bool) -> (out: Outcome<()>)
        requires
            old(self)@.initialized,
        ensures
            out.signers@ == seq![old(self)@.admin],
            match purge_error(old(self)@, campaign_id, voters@.len()) {
                Some(e) => failed(out, e) && final(self)@ == old(self)@,
                None => {
                    let cleared = clear_votes(old(self)@, campaign_id, voters@);
                    if finalize_aggregate {
                        &&& succeeded(out, seq![], seq![Event::VotingStatePurged { campaign_id: campaign_id }])
                        &&& final(self)@ == cleared.with_tally(campaign_id, without_votes(cleared.tally(campaign_id)))
                    } else {
                        &&& succeeded(out, seq![], seq![])
                        &&& final(self)@ == cleared
                    }
                },
            },
    {
        let admin = self.admin;
        let campaign = match self.load_campaign(campaign_id) {
            Some(c) => c,
            None => return fail(signer(admin), Error::CampaignNotFound),
        };
        if !campaign.funds_withdrawn && !campaign.is_cancelled {
            return fail(signer(admin), Error::ValidationFailed);
        }
        if voters.len() == 0 || voters.len() > MAX_VOTERS_PER_CALL {
            return fail(signer(admin), Error::ValidationFailed);
        }
        let mut i: usize = 0;
        while i < voters.len()
            invariant
                i <= voters.len(),
                self@ == clear_votes(old(self)@, campaign_id, voters@.take(i as int)),
            decreases voters.len() - i,
        {
            let voter = voters[i];
            let mut record = self.load_record(campaign_id, voter);
            record.has_voted = false;
            self.store_record(campaign_id, voter, record);
            proof {
                assert(voters@.take(i as int + 1).drop_last() =~= voters@.take(i as int));
            }
            i = i + 1;
        }
        proof {
            assert(voters@.take(i as int) =~= voters@);
        }
        if finalize_aggregate {
            let tally = self.load_tally(campaign_id);
            let cleared = CampaignTally { approve_votes: 0, reject_votes: 0, approve_weight: 0, reject_weight: 0, ..tally };
            self.store_tally(campaign_id, cleared);
            succeed(signer(admin), (), no_transfers(), one_event(Event::VotingStatePurged { campaign_id }))
        } else {
            succeed(signer(admin), (), no_transfers(), no_events())
        }
    }

    /// The creator of an active campaign, or the admin, lifts the automatic pause.
    pub fn resume_campaign(&mut self, campaign_id: u32, caller: Address) -> (out: Outcome<()>)
        requires
            old(self)@.has_campaign(campaign_id) && campaign_is_active(old(self)@.campaign(campaign_id)) ==>
                old(self)@.initialized,
        ensures
            out.signers@ == seq![caller],
            match resume_error(old(self)@, campaign_id, caller) {
                Some(e) => failed(out, e) && final(self)@ == old(self)@,
                None => {
                    &&& succeeded(out, seq![], seq![Event::CampaignResumed { campaign_id: campaign_id, caller: caller }])
                    &&& final(self)@ == (ContractView { auto_paused: false, ..old(self)@ })
                },
            },
    {
        let campaign = match self.load_campaign(campaign_id) {
            Some(c) => c,
            None => return fail(signer(caller), Error::CampaignNotFound),
        };
        if let Err(e) = require_active_campaign(&campaign) {
            return fail(signer(caller), e);
        }
        if caller != campaign.creator && caller != self.admin {
            return fail(signer(caller), Error::NotAuthorized);
        }
        if !self.auto_paused {
            return fail(signer(caller), Error::ValidationFailed);
        }
        self.auto_paused = false;
        succeed(signer(caller), (), no_transfers(), one_event(Event::CampaignResumed { campaign_id, caller }))
    }
}

} // verus!
