//! Plain data types shared by every part of the crowdfunding platform.
use vstd::prelude::*;

verus! {

/// An account on the ledger: a campaign creator, a contributor, a voter,
/// the platform admin or a token contract.  Accounts are compared by identity
/// only, so an integer handle is all the platform logic needs.
pub type Address = u64;

/// Every error that a platform call can return.
#[derive(Clone, Copy, Debug, PartialEq, Eq, Structural)]
pub enum Error {
    AlreadyInitialized,
    NotAuthorized,
    ContractPaused,
    CreationDisabled,
    CampaignNotFound,
    CampaignNotActive,
    CampaignNotVerified,
    CampaignAlreadyVerified,
    AdminVerificationConflict,
    CommunityVerificationConflict,
    FundingGoalMustBePositive,
    FundingGoalTooLow,
    FundingGoalTooHigh,
    FundingGoalNotReached,
    InvalidDuration,
    InvalidPlatformFee,
    InvalidRevenueShare,
    InvalidTokenContract,
    InvalidVestingDelay,
    InvalidNewOwner,
    NegativeContributionCap,
    RevenueShareOnlyForStartup,
    RevenueSharingNotEnabled,
    AmountRaisedIsZero,
    ValidationFailed,
    Overflow,
    DeadlinePassed,
    DeadlineAlreadyExtended,
    ExtensionTooLong,
    CancellationNotAllowed,
    FundsAlreadyWithdrawn,
    NoFundsToWithdraw,
    TransferAlreadyPending,
    NoTransferPending,
    NotTokenHolder,
    AlreadyVoted,
    VotingQuorumNotMet,
    VotingThresholdNotMet,
}

/// The kind of cause a campaign raises money for.
#[derive(Clone, Copy, Debug, PartialEq, Eq, Structural, Hash)]
pub enum Category {
    Learner,
    Educator,
    Publisher,
    EducationalStartup,
}

/// The number under which a category appears in events.
pub open spec fn category_number(c: Category) -> u32 {
    match c {
        Category::Learner => 0,
        Category::Educator => 1,
        Category::Publisher => 2,
        Category::EducationalStartup => 3,
    }
}

impl Category {
    /// The number under which this category appears in events.
    pub fn number(&self) -> (n: u32)
        ensures
            n == category_number(*self),
    {
        match self {
            Category::Learner => 0,
            Category::Educator => 1,
            Category::Publisher => 2,
            Category::EducationalStartup => 3,
        }
    }
}

/// The account that a campaign's ownership is being handed to, if any.
#[derive(Clone, Copy, Debug, PartialEq, Eq, Structural)]
pub enum MaybePendingCreator {
    NotPending,
    Pending(Address),
}

impl MaybePendingCreator {
    pub fn is_some(&self) -> (b: bool)
        ensures
            b == (*self is Pending),
    {
        match self {
            MaybePendingCreator::NotPending => false,
            MaybePendingCreator::Pending(_) => true,
        }
    }

    pub fn is_none(&self) -> (b: bool)
        ensures
            b == (*self is NotPending),
    {
        !self.is_some()
    }
}

/// A fundraising campaign as stored on the ledger.
#[derive(Clone, Debug, PartialEq, Eq)]
pub struct Campaign {
    pub id: u32,
    pub creator: Address,
    pub first_creator: Address,
    pub pending_creator: MaybePendingCreator,
    pub title: String,
    pub description: String,
    pub funding_goal: i128,
    pub deadline: u64,
    pub amount_raised: i128,
    pub is_active: bool,
    pub funds_withdrawn: bool,
    pub is_cancelled: bool,
    pub is_verified: bool,
    pub category: Category,
    pub has_revenue_sharing: bool,
    pub revenue_share_percentage: u32,
    pub max_contribution_per_user: i128,
    pub fee_override: Option<u32>,
    pub deadline_extended: bool,
    pub effective_amount_raised: i128,
}

impl Campaign {
    /// A copy of this campaign, field by field.
    pub fn duplicate(&self) -> (c: Campaign)
        ensures
            c == *self,
    {
        Campaign {
            id: self.id,
            creator: self.creator,
            first_creator: self.first_creator,
            pending_creator: self.pending_creator,
            title: self.title.clone(),
            description: self.description.clone(),
            funding_goal: self.funding_goal,
            deadline: self.deadline,
            amount_raised: self.amount_raised,
            is_active: self.is_active,
            funds_withdrawn: self.funds_withdrawn,
            is_cancelled: self.is_cancelled,
            is_verified: self.is_verified,
            category: self.category,
            has_revenue_sharing: self.has_revenue_sharing,
            revenue_share_percentage: self.revenue_share_percentage,
            max_contribution_per_user: self.max_contribution_per_user,
            fee_override: self.fee_override,
            deadline_extended: self.deadline_extended,
            effective_amount_raised: self.effective_amount_raised,
        }
    }
}

/// Everything a creator supplies to open a campaign.
#[derive(Clone, Debug, PartialEq, Eq)]
pub struct CreateCampaignParams {
    pub creator: Address,
    pub title: String,
    pub description: String,
    pub funding_goal: i128,
    pub duration_days: u64,
    pub category: Category,
    pub has_revenue_sharing: bool,
    pub revenue_share_percentage: u32,
    pub max_contribution_per_user: i128,
}

/// The share of a withdrawal that is held back until `release_timestamp`.
#[derive(Clone, Copy, Debug, PartialEq, Eq, Structural)]
pub struct CampaignReserve {
    pub amount: i128,
    pub release_timestamp: u64,
    pub released: bool,
}

/// Aggregate figures over the campaigns of the platform.
#[derive(Clone, Copy, Debug, PartialEq, Eq, Structural)]
pub struct PlatformStats {
    pub total_campaigns: u32,
    pub active_campaigns: u32,
    pub verified_campaigns: u32,
    pub cancelled_campaigns: u32,
    pub total_amount_raised: i128,
    pub stats_are_partial: bool,
    pub scanned_up_to: u32,
}

/// The ledger's clock as a call sees it.
#[derive(Clone, Copy, Debug, PartialEq, Eq, Structural)]
pub struct Ledger {
    /// Seconds since the epoch.
    pub timestamp: u64,
    /// The number of the ledger (block) the call runs in.
    pub sequence: u32,
}

/// A movement of platform tokens that a successful call requires.
#[derive(Clone, Copy, Debug, PartialEq, Eq, Structural)]
pub enum Transfer {
    /// `amount` moves from `from` into the platform's escrow.
    IntoEscrow { from: Address, amount: i128 },
    /// `amount` moves from the platform's escrow to `to`.
    OutOfEscrow { to: Address, amount: i128 },
}

/// What the platform announces about a successful call.
#[derive(Clone, Debug, PartialEq, Eq)]
pub enum Event {
    Initialized {
        admin: Address,
        token: Address,
        platform_fee: u32,
        min_votes_quorum: u32,
        approval_threshold_bps: u32,
        version: u32,
    },
    CampaignCreated { campaign_id: u32, creator: Address, title: String, category: u32 },
    ContributionMade { campaign_id: u32, contributor: Address, amount: i128 },
    AutoPausedHugeContribution { amount: i128 },
    AutoPausedBurst { count: u32 },
    RefundClaimed { campaign_id: u32, contributor: Address, amount: i128 },
    PersonalCapSet { campaign_id: u32, contributor: Address, amount: i128 },
    Withdrawal {
        campaign_id: u32,
        creator: Address,
        fee_amount: i128,
        creator_amount: i128,
        reserve_amount: i128,
    },
    ReserveWithheld { campaign_id: u32, amount: i128 },
    ReserveReleased { campaign_id: u32, creator: Address, amount: i128 },
    VestingParamsUpdated { admin: Address, delay_days: u64, reserve_bps: u32 },
    VestingDisabled { admin: Address },
    RevenuePoolRefunded { campaign_id: u32, amount: i128 },
    CampaignCancelled { campaign_id: u32, creator: Address, amount_raised: i128 },
    CampaignUpdated { campaign_id: u32, title: String, description: String },
    CampaignDescriptionUpdated { campaign_id: u32, description: String },
    CampaignDeadlineExtended { campaign_id: u32, old_deadline: u64, new_deadline: u64 },
    CampaignTransferInitiated { campaign_id: u32, current_creator: Address, new_creator: Address },
    CampaignTransferCompleted { campaign_id: u32, old_creator: Address, new_creator: Address },
    CampaignTransferCancelled { campaign_id: u32, pending_creator: Address },
    RevenueDeposited { campaign_id: u32, creator: Address, amount: i128 },
    RevenueClaimed { campaign_id: u32, contributor: Address, amount: i128 },
    CreatorRevenueClaimed { campaign_id: u32, creator: Address, amount: i128 },
    CampaignVoteCast { campaign_id: u32, voter: Address, approve: bool, balance: i128 },
    CampaignVerified { campaign_id: u32 },
    CampaignVerifiedByVotes { campaign_id: u32, approve_votes: u32 },
    CampaignsBulkVerified { verified_count: u32, total: u32 },
    CampaignResumed { campaign_id: u32, caller: Address },
    VotingStatePurged { campaign_id: u32 },
    ContractPaused { admin: Address },
    ContractUnpaused { admin: Address },
    CreationDisabledUpdated { admin: Address, disabled: bool },
    VotingParamsUpdated {
        admin: Address,
        old_quorum: u32,
        new_quorum: u32,
        old_threshold: u32,
        new_threshold: u32,
    },
    HighVotingBalanceWarning { min_balance: i128 },
    MinVotingBalanceUpdated { admin: Address, old_balance: i128, new_balance: i128 },
    FeeUpdated { old_fee: u32, new_fee: u32 },
    CampaignFeeOverrideSet { campaign_id: u32, fee_bps: u32 },
    CategoryDurationCapSet { category: u32, max_days: u64 },
    CategoryDurationCapRemoved { category: u32 },
    MinCampaignFundingGoalUpdated { old_min: i128, new_min: i128 },
    MaxCampaignFundingGoalUpdated { old_max: i128, new_max: i128 },
    Migrated { from_version: u32, to_version: u32 },
    TokenUpdateProposed { new_token: Address, release_after: u64 },
    TokenUpdateAccepted { old_token: Address, new_token: Address },
    TokenUpdateCancelled,
    AdminTransferInitiated { current_admin: Address, new_admin: Address },
    AdminTransferCancelled { admin: Address },
    AdminUpdated { old_admin: Address, new_admin: Address },
}

/// The token movements and announcements of a successful call, with its value.
pub struct Receipt<T> {
    pub value: T,
    pub transfers: Vec<Transfer>,
    pub events: Vec<Event>,
}

/// The answer to a call: the accounts whose authorization the call demanded,
/// in the order it demanded them, and what the call returned.  A call that
/// returns an error changes nothing, moves no tokens and announces nothing.
pub struct Outcome<T> {
    pub signers: Vec<Address>,
    pub result: Result<Receipt<T>, Error>,
}

} // verus!
