//! The platform's ledger state and its mathematical model.
use std::collections::HashMap;
use vstd::prelude::*;

use crate::book::{
    empty_record, ids_of, record_of, ContributorBook, ContributorRecord, CreatorIndex,
};
use crate::types::{Address, Campaign, CampaignReserve, Category, Error, Event, Outcome, Receipt, Transfer};

verus! {

broadcast use vstd::std_specs::hash::group_hash_axioms;

/// Counters and balances that the platform keeps for each campaign beside the campaign itself.
#[derive(Clone, Copy, Debug, PartialEq, Eq, Structural)]
pub struct CampaignTally {
    /// When the campaign was created.
    pub start_time: Option<u64>,
    /// Revenue deposited by the creator and not yet refunded.
    pub revenue_pool: i128,
    /// Revenue already paid to the creator.
    pub creator_revenue_claimed: i128,
    pub approve_votes: u32,
    pub reject_votes: u32,
    /// Token-weighted sum of the approving votes.
    pub approve_weight: i128,
    /// Token-weighted sum of the rejecting votes.
    pub reject_weight: i128,
    /// Accounts with an escrowed contribution.
    pub contributor_count: u32,
    /// The vesting reserve held back at withdrawal, if any.
    pub reserve: Option<CampaignReserve>,
    /// The ledger in which the last contributions were counted for burst detection.
    pub burst_sequence: u32,
    /// How many contributions arrived in `burst_sequence`.
    pub burst_count: u32,
}

/// The tally of a campaign the platform has recorded nothing for.
pub open spec fn zero_tally() -> CampaignTally {
    CampaignTally {
        start_time: None,
        revenue_pool: 0,
        creator_revenue_claimed: 0,
        approve_votes: 0,
        reject_votes: 0,
        approve_weight: 0,
        reject_weight: 0,
        contributor_count: 0,
        reserve: None,
        burst_sequence: 0,
        burst_count: 0,
    }
}

/// The tally with the aggregate vote counts and weights cleared.
pub open spec fn without_votes(t: CampaignTally) -> CampaignTally {
    CampaignTally { approve_votes: 0, reject_votes: 0, approve_weight: 0, reject_weight: 0, ..t }
}

/// The whole state of the platform as a mathematical value.
#[verifier::ext_equal]
pub struct ContractView {
    pub initialized: bool,
    pub admin: Address,
    pub pending_admin: Option<Address>,
    pub token: Address,
    pub pending_token: Option<Address>,
    pub pending_token_release: Option<u64>,
    pub paused: bool,
    pub auto_paused: bool,
    pub creation_disabled: bool,
    pub platform_fee: u32,
    pub version: u32,
    pub min_funding_goal: Option<i128>,
    pub max_funding_goal: Option<i128>,
    pub min_votes_quorum: Option<u32>,
    pub approval_threshold_bps: Option<u32>,
    pub min_voting_balance: i128,
    pub vesting_delay_days: u64,
    pub reserve_bps: u32,
    pub total_raised_global: i128,
    pub active_campaign_count: u32,
    pub cancelled_campaign_count: u32,
    pub verified_campaign_count: u32,
    /// The number of campaigns ever created; the last one has this id.
    pub campaign_count: u32,
    pub campaigns: Map<u32, Campaign>,
    pub tallies: Map<u32, CampaignTally>,
    pub records: Map<(u32, Address), ContributorRecord>,
    pub creators: Map<Address, Seq<u32>>,
    pub learner_ids: Seq<u32>,
    pub educator_ids: Seq<u32>,
    pub publisher_ids: Seq<u32>,
    pub startup_ids: Seq<u32>,
    pub learner_cap: Option<u64>,
    pub educator_cap: Option<u64>,
    pub publisher_cap: Option<u64>,
    pub startup_cap: Option<u64>,
}

impl ContractView {
    pub open spec fn has_campaign(self, id: u32) -> bool {
        self.campaigns.contains_key(id)
    }

    pub open spec fn campaign(self, id: u32) -> Campaign {
        self.campaigns[id]
    }

    pub open spec fn tally(self, id: u32) -> CampaignTally {
        if self.tallies.contains_key(id) {
            self.tallies[id]
        } else {
            zero_tally()
        }
    }

    pub open spec fn record(self, id: u32, account: Address) -> ContributorRecord {
        record_of(self.records, id, account)
    }

    pub open spec fn creator_ids(self, account: Address) -> Seq<u32> {
        ids_of(self.creators, account)
    }

    pub open spec fn category_ids(self, c: Category) -> Seq<u32> {
        match c {
            Category::Learner => self.learner_ids,
            Category::Educator => self.educator_ids,
            Category::Publisher => self.publisher_ids,
            Category::EducationalStartup => self.startup_ids,
        }
    }

    pub open spec fn duration_cap(self, c: Category) -> Option<u64> {
        match c {
            Category::Learner => self.learner_cap,
            Category::Educator => self.educator_cap,
            Category::Publisher => self.publisher_cap,
            Category::EducationalStartup => self.startup_cap,
        }
    }

    /// The longest duration a campaign of category `c` may run for, in days.
    pub open spec fn max_duration_days(self, c: Category) -> u64 {
        match self.duration_cap(c) {
            Some(d) => d,
            None => crate::CAMPAIGN_DURATION_MAX_DAYS,
        }
    }

    pub open spec fn is_paused(self) -> bool {
        self.paused || self.auto_paused
    }

    pub open spec fn effective_min_goal(self) -> i128 {
        match self.min_funding_goal {
            Some(g) => g,
            None => crate::CAMPAIGN_FUNDING_GOAL_MIN,
        }
    }

    pub open spec fn effective_max_goal(self) -> i128 {
        match self.max_funding_goal {
            Some(g) => g,
            None => crate::CAMPAIGN_FUNDING_GOAL_MAX,
        }
    }

    pub open spec fn quorum(self) -> u32 {
        match self.min_votes_quorum {
            Some(q) => q,
            None => crate::voting::DEFAULT_MIN_VOTES_QUORUM,
        }
    }

    pub open spec fn threshold(self) -> u32 {
        match self.approval_threshold_bps {
            Some(t) => t,
            None => crate::voting::DEFAULT_APPROVAL_THRESHOLD_BPS,
        }
    }

    /// The state with campaign `id` replaced by `c`.
    pub open spec fn with_campaign(self, id: u32, c: Campaign) -> ContractView {
        ContractView { campaigns: self.campaigns.insert(id, c), ..self }
    }

    /// The state with the tally of campaign `id` replaced by `t`.
    pub open spec fn with_tally(self, id: u32, t: CampaignTally) -> ContractView {
        ContractView { tallies: self.tallies.insert(id, t), ..self }
    }

    /// The state with the record of `account` in campaign `id` replaced by `r`.
    pub open spec fn with_record(self, id: u32, account: Address, r: ContributorRecord) -> ContractView {
        ContractView { records: self.records.insert((id, account), r), ..self }
    }
}

/// The platform's ledger state.  Every entry point of the platform is a method of this type.
pub struct ProofOfHeart {
    pub initialized: bool,
    pub admin: Address,
    pub pending_admin: Option<Address>,
    pub token: Address,
    pub pending_token: Option<Address>,
    pub pending_token_release: Option<u64>,
    pub paused: bool,
    pub auto_paused: bool,
    pub creation_disabled: bool,
    pub platform_fee: u32,
    pub version: u32,
    pub min_funding_goal: Option<i128>,
    pub max_funding_goal: Option<i128>,
    pub min_votes_quorum: Option<u32>,
    pub approval_threshold_bps: Option<u32>,
    pub min_voting_balance: i128,
    pub vesting_delay_days: u64,
    pub reserve_bps: u32,
    pub total_raised_global: i128,
    pub active_campaign_count: u32,
    pub cancelled_campaign_count: u32,
    pub verified_campaign_count: u32,
    pub campaign_count: u32,
    pub campaigns: HashMap<u32, Campaign>,
    pub tallies: HashMap<u32, CampaignTally>,
    pub records: ContributorBook,
    pub creators: CreatorIndex,
    pub learner_ids: Vec<u32>,
    pub educator_ids: Vec<u32>,
    pub publisher_ids: Vec<u32>,
    pub startup_ids: Vec<u32>,
    pub learner_cap: Option<u64>,
    pub educator_cap: Option<u64>,
    pub publisher_cap: Option<u64>,
    pub startup_cap: Option<u64>,
}

impl View for ProofOfHeart {
    type V = ContractView;

    open spec fn view(&self) -> ContractView {
        ContractView {
            initialized: self.initialized,
            admin: self.admin,
            pending_admin: self.pending_admin,
            token: self.token,
            pending_token: self.pending_token,
            pending_token_release: self.pending_token_release,
            paused: self.paused,
            auto_paused: self.auto_paused,
            creation_disabled: self.creation_disabled,
            platform_fee: self.platform_fee,
            version: self.version,
            min_funding_goal: self.min_funding_goal,
            max_funding_goal: self.max_funding_goal,
            min_votes_quorum: self.min_votes_quorum,
            approval_threshold_bps: self.approval_threshold_bps,
            min_voting_balance: self.min_voting_balance,
            vesting_delay_days: self.vesting_delay_days,
            reserve_bps: self.reserve_bps,
            total_raised_global: self.total_raised_global,
            active_campaign_count: self.active_campaign_count,
            cancelled_campaign_count: self.cancelled_campaign_count,
            verified_campaign_count: self.verified_campaign_count,
            campaign_count: self.campaign_count,
            campaigns: self.campaigns@,
            tallies: self.tallies@,
            records: self.records@,
            creators: self.creators@,
            learner_ids: self.learner_ids@,
            educator_ids: self.educator_ids@,
            publisher_ids: self.publisher_ids@,
            startup_ids: self.startup_ids@,
            learner_cap: self.learner_cap,
            educator_cap: self.educator_cap,
            publisher_cap: self.publisher_cap,
            startup_cap: self.startup_cap,
        }
    }
}

/// The state of a platform that has not been initialised yet.
pub open spec fn blank_state() -> ContractView {
    ContractView {
        initialized: false,
        admin: 0,
        pending_admin: None,
        token: 0,
        pending_token: None,
        pending_token_release: None,
        paused: false,
        auto_paused: false,
        creation_disabled: false,
        platform_fee: 0,
        version: 0,
        min_funding_goal: None,
        max_funding_goal: None,
        min_votes_quorum: None,
        approval_threshold_bps: None,
        min_voting_balance: 0,
        vesting_delay_days: 0,
        reserve_bps: 0,
        total_raised_global: 0,
        active_campaign_count: 0,
        cancelled_campaign_count: 0,
        verified_campaign_count: 0,
        campaign_count: 0,
        campaigns: Map::empty(),
        tallies: Map::empty(),
        records: Map::empty(),
        creators: Map::empty(),
        learner_ids: Seq::empty(),
        educator_ids: Seq::empty(),
        publisher_ids: Seq::empty(),
        startup_ids: Seq::empty(),
        learner_cap: None,
        educator_cap: None,
        publisher_cap: None,
        startup_cap: None,
    }
}

/// Whether the call answered with error `e`.
pub open spec fn failed<T>(o: Outcome<T>, e: Error) -> bool {
    o.result matches Err(x) && x == e
}

/// Whether the call succeeded, moving `transfers` and announcing `events`.
pub open spec fn succeeded<T>(o: Outcome<T>, transfers: Seq<Transfer>, events: Seq<Event>) -> bool {
    o.result matches Ok(r) && r.transfers@ == transfers && r.events@ == events
}

/// The signers an admin-only call demands: the caller, once it is known to be the admin.
pub open spec fn admin_signers(s: ContractView, caller: Address) -> Seq<Address> {
    if caller == s.admin {
        seq![caller]
    } else {
        Seq::empty()
    }
}

pub fn fail<T>(signers: Vec<Address>, e: Error) -> (o: Outcome<T>)
    ensures
        o.signers@ == signers@,
        o.result == Err::<Receipt<T>, Error>(e),
{
    Outcome { signers, result: Err(e) }
}

pub fn succeed<T>(signers: Vec<Address>, value: T, transfers: Vec<Transfer>, events: Vec<Event>) -> (o: Outcome<T>)
    ensures
        o.signers@ == signers@,
        o.result matches Ok(r) && r.value == value && r.transfers@ == transfers@ && r.events@ == events@,
{
    Outcome { signers, result: Ok(Receipt { value, transfers, events }) }
}

pub fn no_signers() -> (v: Vec<Address>)
    ensures
        v@ == Seq::<Address>::empty(),
{
    Vec::new()
}

pub fn signer(a: Address) -> (v: Vec<Address>)
    ensures
        v@ == seq![a],
{
    let mut v = Vec::new();
    v.push(a);
    v
}

pub fn one_event(e: Event) -> (v: Vec<Event>)
    ensures
        v@ == seq![e],
{
    let mut v = Vec::new();
    v.push(e);
    v
}

pub fn two_events(a: Event, b: Event) -> (v: Vec<Event>)
    ensures
        v@ == seq![a, b],
{
    let mut v = Vec::new();
    v.push(a);
    v.push(b);
    assert(v@ =~= seq![a, b]);
    v
}

pub fn no_events() -> (v: Vec<Event>)
    ensures
        v@ == Seq::<Event>::empty(),
{
    Vec::new()
}

pub fn no_transfers() -> (v: Vec<Transfer>)
    ensures
        v@ == Seq::<Transfer>::empty(),
{
    Vec::new()
}

pub fn two_transfers(a: Transfer, b: Transfer) -> (v: Vec<Transfer>)
    ensures
        v@ == seq![a, b],
{
    let mut v = Vec::new();
    v.push(a);
    v.push(b);
    assert(v@ =~= seq![a, b]);
    v
}

pub fn one_transfer(t: Transfer) -> (v: Vec<Transfer>)
    ensures
        v@ == seq![t],
{
    let mut v = Vec::new();
    v.push(t);
    v
}

impl ProofOfHeart {
    /// A platform that has not been initialised yet.
    pub fn new() -> (s: ProofOfHeart)
        ensures
            s@ == blank_state(),
    {
        let s = ProofOfHeart {
            initialized: false,
            admin: 0,
            pending_admin: None,
            token: 0,
            pending_token: None,
            pending_token_release: None,
            paused: false,
            auto_paused: false,
            creation_disabled: false,
            platform_fee: 0,
            version: 0,
            min_funding_goal: None,
            max_funding_goal: None,
            min_votes_quorum: None,
            approval_threshold_bps: None,
            min_voting_balance: 0,
            vesting_delay_days: 0,
            reserve_bps: 0,
            total_raised_global: 0,
            active_campaign_count: 0,
            cancelled_campaign_count: 0,
            verified_campaign_count: 0,
            campaign_count: 0,
            campaigns: HashMap::new(),
            tallies: HashMap::new(),
            records: ContributorBook::new(),
            creators: CreatorIndex::new(),
            learner_ids: Vec::new(),
            educator_ids: Vec::new(),
            publisher_ids: Vec::new(),
            startup_ids: Vec::new(),
            learner_cap: None,
            educator_cap: None,
            publisher_cap: None,
            startup_cap: None,
        };
        assert(s@ =~= blank_state());
        s
    }

    /// Whether campaign `id` exists.
    pub fn campaign_exists(&self, id: u32) -> (b: bool)
        ensures
            b == self@.has_campaign(id),
    {
        self.campaigns.contains_key(&id)
    }

    /// A copy of campaign `id`, if it exists.
    pub fn load_campaign(&self, id: u32) -> (c: Option<Campaign>)
        ensures
            c == (if self@.has_campaign(id) { Some(self@.campaign(id)) } else { None::<Campaign> }),
    {
        match self.campaigns.get(&id) {
            Some(c) => Some(c.duplicate()),
            None => None,
        }
    }

    /// Stores `c` as campaign `id`.
    pub fn store_campaign(&mut self, id: u32, c: Campaign)
        ensures
            final(self)@ == old(self)@.with_campaign(id, c),
    {
        self.campaigns.insert(id, c);
        assert(self@ =~= old(self)@.with_campaign(id, c));
    }

    /// The tally of campaign `id`.
    pub fn load_tally(&self, id: u32) -> (t: CampaignTally)
        ensures
            t == self@.tally(id),
    {
        match self.tallies.get(&id) {
            Some(t) => *t,
            None => CampaignTally {
                start_time: None,
                revenue_pool: 0,
                creator_revenue_claimed: 0,
                approve_votes: 0,
                reject_votes: 0,
                approve_weight: 0,
                reject_weight: 0,
                contributor_count: 0,
                reserve: None,
                burst_sequence: 0,
                burst_count: 0,
            },
        }
    }

    /// Stores `t` as the tally of campaign `id`.
    pub fn store_tally(&mut self, id: u32, t: CampaignTally)
        ensures
            final(self)@ == old(self)@.with_tally(id, t),
    {
        self.tallies.insert(id, t);
        assert(self@ =~= old(self)@.with_tally(id, t));
    }

    /// The record of `account` in campaign `id`.
    pub fn load_record(&self, id: u32, account: Address) -> (r: ContributorRecord)
        ensures
            r == self@.record(id, account),
    {
        self.records.get(id, account)
    }

    /// Stores `r` as the record of `account` in campaign `id`.
    pub fn store_record(&mut self, id: u32, account: Address, r: ContributorRecord)
        ensures
            final(self)@ == old(self)@.with_record(id, account, r),
    {
        self.records.set(id, account, r);
        assert(self@ =~= old(self)@.with_record(id, account, r));
    }

    /// The duration cap set for category `c`, if any.
    pub fn duration_cap(&self, c: Category) -> (cap: Option<u64>)
        ensures
            cap == self@.duration_cap(c),
    {
        match c {
            Category::Learner => self.learner_cap,
            Category::Educator => self.educator_cap,
            Category::Publisher => self.publisher_cap,
            Category::EducationalStartup => self.startup_cap,
        }
    }

    /// The longest duration a campaign of category `c` may run for, in days.
    pub fn max_duration_days(&self, c: Category) -> (d: u64)
        ensures
            d == self@.max_duration_days(c),
    {
        match self.duration_cap(c) {
            Some(d) => d,
            None => crate::CAMPAIGN_DURATION_MAX_DAYS,
        }
    }

    pub fn effective_min_goal(&self) -> (g: i128)
        ensures
            g == self@.effective_min_goal(),
    {
        match self.min_funding_goal {
            Some(g) => g,
            None => crate::CAMPAIGN_FUNDING_GOAL_MIN,
        }
    }

    pub fn effective_max_goal(&self) -> (g: i128)
        ensures
            g == self@.effective_max_goal(),
    {
        match self.max_funding_goal {
            Some(g) => g,
            None => crate::CAMPAIGN_FUNDING_GOAL_MAX,
        }
    }

    pub fn quorum(&self) -> (q: u32)
        ensures
            q == self@.quorum(),
    {
        match self.min_votes_quorum {
            Some(q) => q,
            None => crate::voting::DEFAULT_MIN_VOTES_QUORUM,
        }
    }

    pub fn threshold(&self) -> (t: u32)
        ensures
            t == self@.threshold(),
    {
        match self.approval_threshold_bps {
            Some(t) => t,
            None => crate::voting::DEFAULT_APPROVAL_THRESHOLD_BPS,
        }
    }
}

} // verus!
