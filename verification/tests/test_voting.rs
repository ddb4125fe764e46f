#![allow(dead_code)]
#![allow(unused_imports)]
#![allow(unused_variables)]
#![allow(unused_mut)]

use proof_of_heart::{
    Address, Campaign, CampaignReserve, Category, CreateCampaignParams, Error, Event, Ledger,
    MaybePendingCreator, Outcome, PlatformStats, ProofOfHeart, Transfer,
};
use std::collections::HashMap;

/// A ledger with one platform contract and one token, which carries out the token
/// movements that the platform's calls ask for.
struct Chain {
    c: ProofOfHeart,
    timestamp: u64,
    sequence: u32,
    balances: HashMap<Address, i128>,
    contract: Address,
    next: Address,
    events: Vec<Event>,
    auths: Vec<Address>,
    tokens: Vec<Address>,
    emitted: usize,
    log: Vec<Event>,
}

impl Chain {
    fn new() -> Chain {
        Chain {
            c: ProofOfHeart::new(),
            timestamp: 0,
            sequence: 0,
            balances: HashMap::new(),
            contract: 1,
            next: 100,
            events: Vec::new(),
            auths: Vec::new(),
            tokens: Vec::new(),
            emitted: 0,
            log: Vec::new(),
        }
    }

    fn generate(&mut self) -> Address {
        self.next += 1;
        self.next
    }

    fn register_token(&mut self) -> Address {
        let t = self.generate();
        self.tokens.push(t);
        t
    }

    fn ledger(&self) -> Ledger {
        Ledger { timestamp: self.timestamp, sequence: self.sequence }
    }

    fn mint(&mut self, to: Address, amount: i128) {
        *self.balances.entry(to).or_insert(0) += amount;
    }

    /// Token movements and platform events announced so far (a token movement is
    /// announced by the token as one event).
    fn events_all_len(&self) -> usize {
        self.emitted
    }

    fn balance(&self, a: Address) -> i128 {
        *self.balances.get(&a).unwrap_or(&0)
    }

    fn escrow(&self) -> i128 {
        self.balance(self.contract)
    }

    fn move_tokens(&mut self, from: Address, to: Address, amount: i128) {
        assert!(amount >= 0, "negative amount is not allowed");
        let b = self.balance(from);
        assert!(b >= amount, "balance is not sufficient to spend");
        self.balances.insert(from, b - amount);
        self.mint(to, amount);
    }

    fn settle<T>(&mut self, out: Outcome<T>) -> Result<T, Error> {
        self.auths = out.signers;
        match out.result {
            Err(e) => Err(e),
            Ok(r) => {
                for t in r.transfers.iter() {
                    match *t {
                        Transfer::IntoEscrow { from, amount } => self.move_tokens(from, self.contract, amount),
                        Transfer::OutOfEscrow { to, amount } => self.move_tokens(self.contract, to, amount),
                    }
                }
                self.emitted += r.events.len() + r.transfers.len();
                self.log.extend(r.events.iter().cloned());
                self.events = r.events;
                Ok(r.value)
            }
        }
    }

    fn try_init(&mut self, admin: Address, token: Address, fee: u32) -> Result<(), Error> {
        let valid = self.tokens.contains(&token);
        let out = self.c.init(admin, token, fee, valid);
        self.settle(out)
    }
    fn init(&mut self, admin: Address, token: Address, fee: u32) {
        self.try_init(admin, token, fee).unwrap()
    }
    fn try_create_campaign(&mut self, p: &CreateCampaignParams) -> Result<u32, Error> {
        let l = self.ledger();
        let out = self.c.create_campaign(p.clone(), l);
        self.settle(out)
    }
    fn create_campaign(&mut self, p: &CreateCampaignParams) -> u32 {
        self.try_create_campaign(p).unwrap()
    }
    fn try_contribute(&mut self, id: u32, who: Address, amount: i128) -> Result<(), Error> {
        let l = self.ledger();
        let out = self.c.contribute(id, who, amount, l);
        self.settle(out)
    }
    fn contribute(&mut self, id: u32, who: Address, amount: i128) {
        self.try_contribute(id, who, amount).unwrap()
    }
    fn try_claim_refund(&mut self, id: u32, who: Address) -> Result<(), Error> {
        let l = self.ledger();
        let out = self.c.claim_refund(id, who, l);
        self.settle(out)
    }
    fn claim_refund(&mut self, id: u32, who: Address) {
        self.try_claim_refund(id, who).unwrap()
    }
    fn try_withdraw_funds(&mut self, id: u32) -> Result<(), Error> {
        let l = self.ledger();
        let out = self.c.withdraw_funds(id, l);
        self.settle(out)
    }
    fn withdraw_funds(&mut self, id: u32) {
        self.try_withdraw_funds(id).unwrap()
    }
    fn try_withdraw_reserve(&mut self, id: u32) -> Result<(), Error> {
        let l = self.ledger();
        let out = self.c.withdraw_reserve(id, l);
        self.settle(out)
    }
    fn withdraw_reserve(&mut self, id: u32) {
        self.try_withdraw_reserve(id).unwrap()
    }
    fn try_set_vesting_params(&mut self, admin: Address, days: u64, bps: u32) -> Result<(), Error> {
        let out = self.c.set_vesting_params(admin, days, bps);
        self.settle(out)
    }
    fn set_vesting_params(&mut self, admin: Address, days: u64, bps: u32) {
        self.try_set_vesting_params(admin, days, bps).unwrap()
    }
    fn try_cancel_campaign(&mut self, id: u32) -> Result<(), Error> {
        let out = self.c.cancel_campaign(id);
        self.settle(out)
    }
    fn cancel_campaign(&mut self, id: u32) {
        self.try_cancel_campaign(id).unwrap()
    }
    fn try_update_campaign(&mut self, id: u32, title: &str, description: &str) -> Result<(), Error> {
        let out = self.c.update_campaign(id, title.to_string(), description.to_string());
        self.settle(out)
    }
    fn update_campaign(&mut self, id: u32, title: &str, description: &str) {
        self.try_update_campaign(id, title, description).unwrap()
    }
    fn try_update_campaign_description(&mut self, id: u32, description: &str) -> Result<(), Error> {
        let out = self.c.update_campaign_description(id, description.to_string());
        self.settle(out)
    }
    fn update_campaign_description(&mut self, id: u32, description: &str) {
        self.try_update_campaign_description(id, description).unwrap()
    }
    fn try_extend_campaign_deadline(&mut self, id: u32, days: u64) -> Result<(), Error> {
        let l = self.ledger();
        let out = self.c.extend_campaign_deadline(id, days, l);
        self.settle(out)
    }
    fn extend_campaign_deadline(&mut self, id: u32, days: u64) {
        self.try_extend_campaign_deadline(id, days).unwrap()
    }
    fn try_initiate_campaign_transfer(&mut self, id: u32, new_creator: Address) -> Result<(), Error> {
        let out = self.c.initiate_campaign_transfer(id, new_creator);
        self.settle(out)
    }
    fn initiate_campaign_transfer(&mut self, id: u32, new_creator: Address) {
        self.try_initiate_campaign_transfer(id, new_creator).unwrap()
    }
    fn try_accept_campaign_transfer(&mut self, id: u32) -> Result<(), Error> {
        let out = self.c.accept_campaign_transfer(id);
        self.settle(out)
    }
    fn accept_campaign_transfer(&mut self, id: u32) {
        self.try_accept_campaign_transfer(id).unwrap()
    }
    fn try_cancel_campaign_transfer(&mut self, id: u32) -> Result<(), Error> {
        let out = self.c.cancel_campaign_transfer(id);
        self.settle(out)
    }
    fn cancel_campaign_transfer(&mut self, id: u32) {
        self.try_cancel_campaign_transfer(id).unwrap()
    }
    fn try_deposit_revenue(&mut self, id: u32, amount: i128) -> Result<(), Error> {
        let out = self.c.deposit_revenue(id, amount);
        self.settle(out)
    }
    fn deposit_revenue(&mut self, id: u32, amount: i128) {
        self.try_deposit_revenue(id, amount).unwrap()
    }
    fn try_claim_revenue(&mut self, id: u32, who: Address) -> Result<(), Error> {
        let out = self.c.claim_revenue(id, who);
        self.settle(out)
    }
    fn claim_revenue(&mut self, id: u32, who: Address) {
        self.try_claim_revenue(id, who).unwrap()
    }
    fn try_claim_creator_revenue(&mut self, id: u32) -> Result<(), Error> {
        let out = self.c.claim_creator_revenue(id);
        self.settle(out)
    }
    fn claim_creator_revenue(&mut self, id: u32) {
        self.try_claim_creator_revenue(id).unwrap()
    }
    fn try_vote_on_campaign(&mut self, id: u32, voter: Address, approve: bool) -> Result<(), Error> {
        let l = self.ledger();
        let balance = self.balance(voter);
        let out = self.c.vote_on_campaign(id, voter, approve, balance, l);
        self.settle(out)
    }
    fn vote_on_campaign(&mut self, id: u32, voter: Address, approve: bool) {
        self.try_vote_on_campaign(id, voter, approve).unwrap()
    }
    fn try_verify_campaign(&mut self, id: u32) -> Result<(), Error> {
        let out = self.c.verify_campaign(id);
        self.settle(out)
    }
    fn verify_campaign(&mut self, id: u32) {
        self.try_verify_campaign(id).unwrap()
    }
    fn try_verify_campaigns(&mut self, ids: &[u32]) -> Result<u32, Error> {
        let v: Vec<u32> = ids.to_vec();
        let out = self.c.verify_campaigns(&v);
        self.settle(out)
    }
    fn verify_campaigns(&mut self, ids: &[u32]) -> u32 {
        self.try_verify_campaigns(ids).unwrap()
    }
    fn try_verify_campaign_with_votes(&mut self, id: u32) -> Result<(), Error> {
        let out = self.c.verify_campaign_with_votes(id);
        self.settle(out)
    }
    fn verify_campaign_with_votes(&mut self, id: u32) {
        self.try_verify_campaign_with_votes(id).unwrap()
    }
    fn try_resume_campaign(&mut self, id: u32, caller: Address) -> Result<(), Error> {
        let out = self.c.resume_campaign(id, caller);
        self.settle(out)
    }
    fn resume_campaign(&mut self, id: u32, caller: Address) {
        self.try_resume_campaign(id, caller).unwrap()
    }
    fn try_purge_voting_state(&mut self, id: u32, voters: &[Address], finalize: bool) -> Result<(), Error> {
        let v: Vec<Address> = voters.to_vec();
        let out = self.c.purge_voting_state(id, &v, finalize);
        self.settle(out)
    }
    fn purge_voting_state(&mut self, id: u32, voters: &[Address], finalize: bool) {
        self.try_purge_voting_state(id, voters, finalize).unwrap()
    }
    fn try_pause(&mut self) -> Result<(), Error> {
        let out = self.c.pause();
        self.settle(out)
    }
    fn pause(&mut self) {
        self.try_pause().unwrap()
    }
    fn try_unpause(&mut self) -> Result<(), Error> {
        let out = self.c.unpause();
        self.settle(out)
    }
    fn unpause(&mut self) {
        self.try_unpause().unwrap()
    }
    fn is_paused(&self) -> bool {
        self.c.is_paused()
    }
    fn try_set_creation_disabled(&mut self, disabled: bool) -> Result<(), Error> {
        let out = self.c.set_creation_disabled(disabled);
        self.settle(out)
    }
    fn set_creation_disabled(&mut self, disabled: bool) {
        self.try_set_creation_disabled(disabled).unwrap()
    }
    fn is_creation_disabled(&self) -> bool {
        self.c.is_creation_disabled()
    }
    fn try_update_platform_fee(&mut self, fee: u32) -> Result<(), Error> {
        let out = self.c.update_platform_fee(fee);
        self.settle(out)
    }
    fn update_platform_fee(&mut self, fee: u32) {
        self.try_update_platform_fee(fee).unwrap()
    }
    fn try_set_campaign_fee_override(&mut self, admin: Address, id: u32, fee: u32) -> Result<(), Error> {
        let out = self.c.set_campaign_fee_override(admin, id, fee);
        self.settle(out)
    }
    fn set_campaign_fee_override(&mut self, admin: Address, id: u32, fee: u32) {
        self.try_set_campaign_fee_override(admin, id, fee).unwrap()
    }
    fn try_set_category_duration_cap(&mut self, admin: Address, category: Category, days: u64) -> Result<(), Error> {
        let out = self.c.set_category_duration_cap(admin, category, days);
        self.settle(out)
    }
    fn set_category_duration_cap(&mut self, admin: Address, category: Category, days: u64) {
        self.try_set_category_duration_cap(admin, category, days).unwrap()
    }
    fn try_remove_category_duration_cap(&mut self, admin: Address, category: Category) -> Result<(), Error> {
        let out = self.c.remove_category_duration_cap(admin, category);
        self.settle(out)
    }
    fn remove_category_duration_cap(&mut self, admin: Address, category: Category) {
        self.try_remove_category_duration_cap(admin, category).unwrap()
    }
    fn try_set_min_campaign_funding_goal(&mut self, admin: Address, goal: i128) -> Result<(), Error> {
        let out = self.c.set_min_campaign_funding_goal(admin, goal);
        self.settle(out)
    }
    fn set_min_campaign_funding_goal(&mut self, admin: Address, goal: i128) {
        self.try_set_min_campaign_funding_goal(admin, goal).unwrap()
    }
    fn try_set_max_campaign_funding_goal(&mut self, admin: Address, goal: i128) -> Result<(), Error> {
        let out = self.c.set_max_campaign_funding_goal(admin, goal);
        self.settle(out)
    }
    fn set_max_campaign_funding_goal(&mut self, admin: Address, goal: i128) {
        self.try_set_max_campaign_funding_goal(admin, goal).unwrap()
    }
    fn try_set_voting_params(&mut self, admin: Address, quorum: u32, threshold: u32) -> Result<(), Error> {
        let out = self.c.set_voting_params(admin, quorum, threshold);
        self.settle(out)
    }
    fn set_voting_params(&mut self, admin: Address, quorum: u32, threshold: u32) {
        self.try_set_voting_params(admin, quorum, threshold).unwrap()
    }
    fn try_set_min_voting_balance(&mut self, admin: Address, balance: i128) -> Result<(), Error> {
        let out = self.c.set_min_voting_balance(admin, balance);
        self.settle(out)
    }
    fn set_min_voting_balance(&mut self, admin: Address, balance: i128) {
        self.try_set_min_voting_balance(admin, balance).unwrap()
    }
    fn try_propose_token_update(&mut self, admin: Address, token: Address) -> Result<(), Error> {
        let l = self.ledger();
        let valid = self.tokens.contains(&token);
        let out = self.c.propose_token_update(admin, token, valid, l);
        self.settle(out)
    }
    fn propose_token_update(&mut self, admin: Address, token: Address) {
        self.try_propose_token_update(admin, token).unwrap()
    }
    fn try_accept_token_update(&mut self, admin: Address) -> Result<(), Error> {
        let l = self.ledger();
        let out = self.c.accept_token_update(admin, l);
        self.settle(out)
    }
    fn accept_token_update(&mut self, admin: Address) {
        self.try_accept_token_update(admin).unwrap()
    }
    fn try_cancel_token_update(&mut self, admin: Address) -> Result<(), Error> {
        let out = self.c.cancel_token_update(admin);
        self.settle(out)
    }
    fn cancel_token_update(&mut self, admin: Address) {
        self.try_cancel_token_update(admin).unwrap()
    }
    fn try_initiate_admin_transfer(&mut self, admin: Address, new_admin: Address) -> Result<(), Error> {
        let out = self.c.initiate_admin_transfer(admin, new_admin);
        self.settle(out)
    }
    fn initiate_admin_transfer(&mut self, admin: Address, new_admin: Address) {
        self.try_initiate_admin_transfer(admin, new_admin).unwrap()
    }
    fn try_accept_admin_transfer(&mut self) -> Result<(), Error> {
        let out = self.c.accept_admin_transfer();
        self.settle(out)
    }
    fn accept_admin_transfer(&mut self) {
        self.try_accept_admin_transfer().unwrap()
    }
    fn try_cancel_admin_transfer(&mut self, admin: Address) -> Result<(), Error> {
        let out = self.c.cancel_admin_transfer(admin);
        self.settle(out)
    }
    fn cancel_admin_transfer(&mut self, admin: Address) {
        self.try_cancel_admin_transfer(admin).unwrap()
    }
    fn try_update_admin(&mut self, new_admin: Address) -> Result<(), Error> {
        let out = self.c.update_admin(new_admin);
        self.settle(out)
    }
    fn update_admin(&mut self, new_admin: Address) {
        self.try_update_admin(new_admin).unwrap()
    }
    fn try_migrate(&mut self, admin: Address, version: u32) -> Result<(), Error> {
        let out = self.c.migrate(admin, version);
        self.settle(out)
    }
    fn migrate(&mut self, admin: Address, version: u32) {
        self.try_migrate(admin, version).unwrap()
    }
    fn try_set_personal_cap(&mut self, id: u32, who: Address, amount: i128) -> Result<(), Error> {
        let out = self.c.set_personal_cap(id, who, amount);
        self.settle(out)
    }
    fn set_personal_cap(&mut self, id: u32, who: Address, amount: i128) {
        self.try_set_personal_cap(id, who, amount).unwrap()
    }
    fn try_get_campaign(&self, id: u32) -> Result<Campaign, Error> {
        self.c.get_campaign(id)
    }
    fn get_campaign(&self, id: u32) -> Campaign {
        self.c.get_campaign(id).unwrap()
    }
}

fn make_params(
    creator: Address,
    title: &str,
    description: &str,
    funding_goal: i128,
    duration_days: u64,
    category: Category,
    has_revenue_sharing: bool,
    revenue_share_percentage: u32,
    max_contribution_per_user: i128,
) -> CreateCampaignParams {
    CreateCampaignParams {
        creator,
        title: title.to_string(),
        description: description.to_string(),
        funding_goal,
        duration_days,
        category,
        has_revenue_sharing,
        revenue_share_percentage,
        max_contribution_per_user,
    }
}

/// A platform initialised with a 3% fee, with the default minimum funding goal; the
/// admin, a creator, two contributors and the token.
fn setup_env_with_default_min() -> (Chain, Address, Address, Address, Address, Address) {
    let mut ch = Chain::new();
    let admin = ch.generate();
    let creator = ch.generate();
    let contributor1 = ch.generate();
    let contributor2 = ch.generate();
    let token = ch.register_token();
    ch.init(admin, token, 300);
    (ch, admin, creator, contributor1, contributor2, token)
}

/// As `setup_env_with_default_min`, with the minimum funding goal lowered to 1.
fn setup_env() -> (Chain, Address, Address, Address, Address, Address) {
    let mut s = setup_env_with_default_min();
    s.0.c.min_funding_goal = Some(1);
    s
}

#[test]
fn test_community_voting_verification_success() {
    let (mut ch, _admin, creator, contributor1, contributor2, _token) = setup_env();
    let voter3 = ch.generate();
    ch.mint(contributor1, 100);
    ch.mint(contributor2, 100);
    ch.mint(voter3, 100);
    let campaign_id =
        ch.create_campaign(&make_params(creator, "Community Verified", "Verify by voting", 1000, 30, Category::Educator, false, 0, 0));
    ch.vote_on_campaign(campaign_id, contributor1, true);
    ch.vote_on_campaign(campaign_id, contributor2, true);
    ch.vote_on_campaign(campaign_id, voter3, false);
    assert_eq!(ch.c.get_approve_votes(campaign_id), 2);
    assert_eq!(ch.c.get_reject_votes(campaign_id), 1);
    assert!(ch.c.has_voted(campaign_id, contributor1));
    ch.verify_campaign_with_votes(campaign_id);
    let campaign = ch.get_campaign(campaign_id);
    assert!(campaign.is_verified);
    let res = ch.try_verify_campaign_with_votes(campaign_id);
    assert_eq!(res.unwrap_err(), Error::CommunityVerificationConflict);
}

#[test]
fn test_vote_prevents_double_voting_and_requires_token_holder() {
    let (mut ch, _admin, creator, contributor1, _, _token) = setup_env();
    let non_holder = ch.generate();
    ch.mint(contributor1, 100);
    let campaign_id =
        ch.create_campaign(&make_params(creator, "Vote Safety", "No duplicate votes", 500, 30, Category::Learner, false, 0, 0));
    ch.vote_on_campaign(campaign_id, contributor1, true);
    let res = ch.try_vote_on_campaign(campaign_id, contributor1, false);
    assert_eq!(res.unwrap_err(), Error::AlreadyVoted);
    let res = ch.try_vote_on_campaign(campaign_id, non_holder, true);
    assert_eq!(res.unwrap_err(), Error::NotTokenHolder);
}

#[test]
fn test_verify_campaign_quorum_and_threshold_edges() {
    let (mut ch, admin, creator, contributor1, contributor2, _token) = setup_env();
    let voter3 = ch.generate();
    let voter4 = ch.generate();
    ch.mint(contributor1, 100);
    ch.mint(contributor2, 100);
    ch.mint(voter3, 100);
    ch.mint(voter4, 100);
    ch.set_voting_params(admin, 4, 7500);
    assert_eq!(ch.c.get_min_votes_quorum(), 4);
    assert_eq!(ch.c.get_approval_threshold_bps(), 7500);
    let campaign_id_1 =
        ch.create_campaign(&make_params(creator, "Quorum Campaign", "Needs 4 votes", 700, 30, Category::Publisher, false, 0, 0));
    ch.vote_on_campaign(campaign_id_1, contributor1, true);
    ch.vote_on_campaign(campaign_id_1, contributor2, true);
    ch.vote_on_campaign(campaign_id_1, voter3, true);
    let res = ch.try_verify_campaign_with_votes(campaign_id_1);
    assert_eq!(res.unwrap_err(), Error::VotingQuorumNotMet);
    ch.vote_on_campaign(campaign_id_1, voter4, false);
    ch.verify_campaign(campaign_id_1);
    assert!(ch.get_campaign(campaign_id_1).is_verified);
    let campaign_id_2 =
        ch.create_campaign(&make_params(creator, "Threshold Campaign", "Fails threshold", 700, 30, Category::Publisher, false, 0, 0));
    ch.vote_on_campaign(campaign_id_2, contributor1, true);
    ch.vote_on_campaign(campaign_id_2, contributor2, true);
    ch.vote_on_campaign(campaign_id_2, voter3, false);
    ch.vote_on_campaign(campaign_id_2, voter4, false);
    let res = ch.try_verify_campaign_with_votes(campaign_id_2);
    assert_eq!(res.unwrap_err(), Error::VotingThresholdNotMet);
}

#[test]
fn test_set_voting_params_rejects_threshold_over_10000() {
    let (mut ch, admin, _, _, _, _) = setup_env();
    let res = ch.try_set_voting_params(admin, 3, 10000);
    assert!(res.is_ok());
    let res = ch.try_set_voting_params(admin, 3, 10001);
    assert_eq!(res.unwrap_err(), Error::ValidationFailed);
    let res = ch.try_set_voting_params(admin, 3, u32::MAX);
    assert_eq!(res.unwrap_err(), Error::ValidationFailed);
}

#[test]
fn test_set_voting_params_rejects_non_admin() {
    let (mut ch, _admin, creator, _, _, _) = setup_env();
    let res = ch.try_set_voting_params(creator, 5, 7000);
    assert_eq!(res.unwrap_err(), Error::NotAuthorized);
    let random = ch.generate();
    let res = ch.try_set_voting_params(random, 5, 7000);
    assert_eq!(res.unwrap_err(), Error::NotAuthorized);
}

#[test]
fn test_set_voting_params_emits_event() {
    let (mut ch, admin, _, _, _, _) = setup_env();
    ch.set_voting_params(admin, 5, 7000);
    let last_event = ch.events.last().unwrap().clone();
    assert_eq!(
        last_event,
        Event::VotingParamsUpdated { admin, old_quorum: 3, new_quorum: 5, old_threshold: 6000, new_threshold: 7000 }
    );
}

#[test]
fn test_vote_on_campaign_basic_flow() {
    let (mut ch, _admin, creator, contributor1, contributor2, _token) = setup_env();
    ch.mint(contributor1, 1000);
    ch.mint(contributor2, 1000);
    let campaign_id = ch.create_campaign(&make_params(creator, "Voting Test", "Test voting", 1000, 30, Category::Learner, false, 0, 0));
    ch.vote_on_campaign(campaign_id, contributor1, true);
    assert_eq!(ch.c.get_approve_votes(campaign_id), 1);
    assert_eq!(ch.c.get_reject_votes(campaign_id), 0);
    assert!(ch.c.has_voted(campaign_id, contributor1));
    ch.vote_on_campaign(campaign_id, contributor2, false);
    assert_eq!(ch.c.get_approve_votes(campaign_id), 1);
    assert_eq!(ch.c.get_reject_votes(campaign_id), 1);
    assert!(ch.c.has_voted(campaign_id, contributor2));
}

#[test]
fn test_vote_on_campaign_double_vote_fails() {
    let (mut ch, _admin, creator, contributor1, _, _token) = setup_env();
    ch.mint(contributor1, 1000);
    let campaign_id =
        ch.create_campaign(&make_params(creator, "Double Vote Test", "Test double voting", 1000, 30, Category::Learner, false, 0, 0));
    ch.vote_on_campaign(campaign_id, contributor1, true);
    let res = ch.try_vote_on_campaign(campaign_id, contributor1, false);
    assert_eq!(res.unwrap_err(), Error::AlreadyVoted);
}

#[test]
fn test_vote_on_campaign_no_tokens_fails() {
    let (mut ch, _admin, creator, contributor1, _, _) = setup_env();
    let campaign_id = ch.create_campaign(&make_params(
        creator,
        "No Token Vote Test",
        "Test voting without tokens",
        1000,
        30,
        Category::Learner,
        false,
        0,
        0,
    ));
    let res = ch.try_vote_on_campaign(campaign_id, contributor1, true);
    assert_eq!(res.unwrap_err(), Error::NotTokenHolder);
}

#[test]
fn test_vote_on_campaign_below_minimum_balance_fails() {
    let (mut ch, admin, creator, contributor1, _, _token) = setup_env();
    ch.mint(contributor1, 100);
    ch.set_min_voting_balance(admin, 500);
    let campaign_id = ch.create_campaign(&make_params(
        creator,
        "Min Balance Vote Test",
        "Test voting with insufficient balance",
        1000,
        30,
        Category::Learner,
        false,
        0,
        0,
    ));
    let res = ch.try_vote_on_campaign(campaign_id, contributor1, true);
    assert_eq!(res.unwrap_err(), Error::NotTokenHolder);
}

#[test]
fn test_vote_on_verified_campaign_fails() {
    let (mut ch, _admin, creator, contributor1, _, _token) = setup_env();
    ch.mint(contributor1, 1000);
    let campaign_id = ch.create_campaign(&make_params(
        creator,
        "Already Verified",
        "Test voting on verified campaign",
        1000,
        30,
        Category::Learner,
        false,
        0,
        0,
    ));
    ch.verify_campaign(campaign_id);
    let res = ch.try_vote_on_campaign(campaign_id, contributor1, true);
    assert_eq!(res.unwrap_err(), Error::CampaignAlreadyVerified);
}

#[test]
fn test_verify_campaigns_extends_voting_state_ttl() {
    let (mut ch, _admin, creator, _, _, _) = setup_env();
    let campaign_id = ch.create_campaign(&make_params(creator, "TTL Test", "Testing TTL extension", 1000, 30, Category::Learner, false, 0, 0));
    let count = ch.verify_campaigns(&[campaign_id]);
    assert_eq!(count, 1);
    let campaign = ch.get_campaign(campaign_id);
    assert!(campaign.is_verified);
}

#[test]
fn test_vote_on_campaign_after_deadline_returns_deadline_passed() {
    let (mut ch, _admin, creator, contributor1, _, _token) = setup_env();
    ch.mint(contributor1, 500);
    let campaign_id = ch.create_campaign(&make_params(
        creator,
        "Deadline Vote Test",
        "Voting after deadline must return DeadlinePassed",
        1_000,
        30,
        Category::Learner,
        false,
        0,
        0,
    ));
    let campaign = ch.get_campaign(campaign_id);
    ch.timestamp = campaign.deadline + 1;
    let res = ch.try_vote_on_campaign(campaign_id, contributor1, true);
    assert_eq!(res.unwrap_err(), Error::DeadlinePassed);
}

#[test]
fn test_verify_campaigns_partial_failure_returns_err() {
    let (mut ch, _admin, creator, _, _, _) = setup_env();
    let campaign_id =
        ch.create_campaign(&make_params(creator, "Valid Campaign", "One valid campaign", 1_000, 30, Category::Learner, false, 0, 0));
    let res = ch.try_verify_campaigns(&[campaign_id, 999u32]);
    assert_eq!(res.unwrap_err(), Error::CampaignNotFound);
    assert!(!ch.get_campaign(campaign_id).is_verified);
}

#[test]
fn test_verify_campaigns_duplicate_id_is_refused_whole() {
    let (mut ch, _admin, creator, _, _, _) = setup_env();
    let a = ch.create_campaign(&make_params(creator, "A", "First", 1_000, 30, Category::Learner, false, 0, 0));
    let b = ch.create_campaign(&make_params(creator, "B", "Second", 1_000, 30, Category::Learner, false, 0, 0));
    let res = ch.try_verify_campaigns(&[a, b, a]);
    assert_eq!(res.unwrap_err(), Error::AdminVerificationConflict);
    assert!(!ch.get_campaign(a).is_verified);
    assert!(!ch.get_campaign(b).is_verified);
    assert_eq!(ch.verify_campaigns(&[a, b]), 2);
    assert_eq!(
        ch.events,
        vec![
            Event::CampaignVerified { campaign_id: a },
            Event::CampaignVerified { campaign_id: b },
            Event::CampaignsBulkVerified { verified_count: 2, total: 2 },
        ]
    );
}

#[test]
fn test_verify_campaigns_looks_at_fifty_ids_at_most() {
    let (mut ch, _admin, creator, _, _, _) = setup_env();
    let mut ids = Vec::new();
    for _ in 0..50 {
        ids.push(ch.create_campaign(&make_params(creator, "Batch", "Batch item", 1_000, 30, Category::Learner, false, 0, 0)));
    }
    ids.push(999);
    assert_eq!(ch.verify_campaigns(&ids), 50);
    assert_eq!(ch.c.get_platform_stats().verified_campaigns, 50);
}
