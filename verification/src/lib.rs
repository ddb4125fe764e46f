//! A community-validated crowdfunding platform: campaigns, contributions,
//! refunds, withdrawals with vesting, revenue sharing and community voting.
//!
//! The platform's ledger state is [`ProofOfHeart`]; every entry point is a
//! method of it that returns an [`Outcome`]: the accounts whose authorization
//! the call demands, and either an error (nothing changed) or a receipt with
//! the token movements and events of the call.
use vstd::prelude::*;

pub mod types;
pub mod book;
pub mod state;
pub mod voting;
pub mod lifecycle;
pub mod admin;
pub mod campaigns;
pub mod withdraw;
pub mod contributions;
pub mod revenue;
pub mod queries;
pub mod laws;
pub mod rules;

pub use types::{
    category_number, Address, Campaign, CampaignReserve, Category, CreateCampaignParams, Error,
    Event, Ledger, MaybePendingCreator, Outcome, PlatformStats, Receipt, Transfer,
};
pub use book::ContributorRecord;
pub use state::{CampaignTally, ContractView, ProofOfHeart};
pub use lifecycle::{
    assert_creator, calculate_deadline, require_active_campaign, require_revenue_sharing,
    require_unverified_campaign,
};

verus! {

/// The version of the platform's state layout.
pub const CONTRACT_VERSION: u32 = 1;

pub const CAMPAIGN_TITLE_MIN_LEN: u32 = 1;
pub const CAMPAIGN_TITLE_MAX_LEN: u32 = 100;
pub const CAMPAIGN_DESCRIPTION_MIN_LEN: u32 = 1;
pub const CAMPAIGN_DESCRIPTION_MAX_LEN: u32 = 1000;
pub const CAMPAIGN_DURATION_MIN_DAYS: u64 = 1;
pub const CAMPAIGN_DURATION_MAX_DAYS: u64 = 365;
pub const CAMPAIGN_FUNDING_GOAL_MIN: i128 = 100_000;
pub const CAMPAIGN_FUNDING_GOAL_MAX: i128 = 1_000_000_000_000_000;
/// The highest platform fee, in basis points (10%).
pub const PLATFORM_FEE_MAX_BPS: u32 = 1000;
/// The highest share of revenue that may go to contributors, in basis points (50%).
pub const REVENUE_SHARE_MAX_BPS: u32 = 5000;
/// A single contribution above this share of the goal (in basis points) pauses the platform.
pub const AUTO_PAUSE_SINGLE_CONTRIBUTION_BPS_THRESHOLD: i128 = 20000;
/// More contributions than this to one campaign within one ledger pause the platform.
pub const AUTO_PAUSE_BURST_THRESHOLD: u32 = 10;
/// The most entries a listing returns.
pub const LIST_MAX_LIMIT: u32 = 50;
/// Seconds in a day.
pub const SECONDS_PER_DAY: u64 = 86400;

} // verus!
