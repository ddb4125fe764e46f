//! Community voting on campaigns and their verification.
use vstd::prelude::*;

use crate::admin::voting_params_valid;
use crate::book::ContributorRecord;
use crate::campaigns::inc;
use crate::contributions::fits_i128;
use crate::lifecycle::{campaign_is_active, require_active_campaign};
use crate::state::{
    fail, failed, no_signers, no_transfers, one_event, signer, succeed, succeeded, CampaignTally,
    ContractView, ProofOfHeart,
};
use crate::types::{Address, Campaign, Error, Event, Ledger, Outcome};

verus! {

/// Default minimum number of votes required to reach quorum.
pub const DEFAULT_MIN_VOTES_QUORUM: u32 = 3;

/// Maximum allowed minimum votes quorum to prevent governance lock.
pub const MAX_VOTES_QUORUM: u32 = 1000;

/// Default approval threshold in basis points (60%).
pub const DEFAULT_APPROVAL_THRESHOLD_BPS: u32 = 6000;

/// Minimum allowed approval threshold in basis points (10%).
pub const MIN_APPROVAL_THRESHOLD_BPS: u32 = 1000;

/// The error a vote of `voter` with token balance `balance` answers with, if any.
pub open spec fn vote_error(s: ContractView, id: u32, voter: Address, approve: bool, balance: i128, now: u64) -> Option<Error> {
    let c = s.campaign(id);
    let t = s.tally(id);
    if !s.has_campaign(id) {
        Some(Error::CampaignNotFound)
    } else if c.funds_withdrawn || !campaign_is_active(c) {
        Some(Error::CampaignNotActive)
    } else if now > c.deadline {
        Some(Error::DeadlinePassed)
    } else if c.is_verified {
        Some(Error::CampaignAlreadyVerified)
    } else if balance <= 0 || balance < s.min_voting_balance {
        Some(Error::NotTokenHolder)
    } else if s.record(id, voter).has_voted {
        Some(Error::AlreadyVoted)
    } else if approve && (t.approve_votes == u32::MAX || !fits_i128(t.approve_weight + balance)) {
        Some(Error::Overflow)
    } else if !approve && (t.reject_votes == u32::MAX || !fits_i128(t.reject_weight + balance)) {
        Some(Error::Overflow)
    } else {
        None
    }
}

/// The tally with one more vote, weighted by `balance`, on the side `approve` names.
pub open spec fn tally_with_vote(t: CampaignTally, approve: bool, balance: i128) -> CampaignTally {
    if approve {
        CampaignTally {
            approve_votes: (t.approve_votes + 1) as u32,
            approve_weight: (t.approve_weight + balance) as i128,
            ..t
        }
    } else {
        CampaignTally {
            reject_votes: (t.reject_votes + 1) as u32,
            reject_weight: (t.reject_weight + balance) as i128,
            ..t
        }
    }
}

/// The state after `voter` voted on campaign `id`.
pub open spec fn voted_state(s: ContractView, id: u32, voter: Address, approve: bool, balance: i128) -> ContractView {
    s.with_tally(id, tally_with_vote(s.tally(id), approve, balance)).with_record(
        id,
        voter,
        ContributorRecord { has_voted: true, ..s.record(id, voter) },
    )
}

/// The error the admin's verification of campaign `id` answers with, if any.
pub open spec fn verify_error(s: ContractView, id: u32) -> Option<Error> {
    let c = s.campaign(id);
    if !s.has_campaign(id) {
        Some(Error::CampaignNotFound)
    } else if c.is_cancelled {
        Some(Error::CampaignNotActive)
    } else if c.is_verified {
        Some(Error::AdminVerificationConflict)
    } else if !c.is_active {
        Some(Error::CampaignNotActive)
    } else {
        None
    }
}

/// The state with campaign `id` marked verified and counted among the verified campaigns.
pub open spec fn verified_state(s: ContractView, id: u32) -> ContractView {
    ContractView {
        campaigns: s.campaigns.insert(id, Campaign { is_verified: true, ..s.campaign(id) }),
        verified_campaign_count: inc(s.verified_campaign_count),
        ..s
    }
}

/// The share of the token-weighted votes that approve, in basis points
/// (`approve * 10000 / total`, zero when nothing was weighed or the product overflows).
pub open spec fn approval_bps(approve_weight: i128, reject_weight: i128) -> u32 {
    let total = approve_weight + reject_weight;
    if total > 0 {
        match approve_weight.checked_mul(10000) {
            Some(m) => match m.checked_div(total as i128) {
                Some(q) => q as u32,
                None => 0,
            },
            None => 0,
        }
    } else {
        0
    }
}

/// The error the community verification of campaign `id` answers with, if any.
pub open spec fn vote_verify_error(s: ContractView, id: u32) -> Option<Error> {
    let c = s.campaign(id);
    let t = s.tally(id);
    if !s.has_campaign(id) {
        Some(Error::CampaignNotFound)
    } else if c.is_cancelled {
        Some(Error::CampaignNotActive)
    } else if c.is_verified {
        Some(Error::CommunityVerificationConflict)
    } else if !c.is_active {
        Some(Error::CampaignNotActive)
    } else if t.approve_votes + t.reject_votes > u32::MAX {
        Some(Error::Overflow)
    } else if t.approve_votes + t.reject_votes < s.quorum() {
        Some(Error::VotingQuorumNotMet)
    } else if !fits_i128(t.approve_weight + t.reject_weight) {
        Some(Error::Overflow)
    } else if approval_bps(t.approve_weight, t.reject_weight) < s.threshold() {
        Some(Error::VotingThresholdNotMet)
    } else {
        None
    }
}

/// The outcome of verifying the campaigns `ids` one after the other: the state after
/// the last, or the first error met.
pub open spec fn verify_batch(s: ContractView, ids: Seq<u32>) -> Result<ContractView, Error>
    decreases ids.len(),
{
    if ids.len() == 0 {
        Ok(s)
    } else {
        match verify_batch(s, ids.drop_last()) {
            Err(e) => Err(e),
            Ok(t) => match verify_error(t, ids.last()) {
                Some(e) => Err(e),
                None => Ok(verified_state(t, ids.last())),
            },
        }
    }
}

/// The most campaigns one batch verification looks at.
pub const MAX_BATCH_SIZE: usize = 50;

/// The part of `ids` a batch verification looks at.
pub open spec fn batch_of(ids: Seq<u32>) -> Seq<u32> {
    if ids.len() <= MAX_BATCH_SIZE { ids } else { ids.take(MAX_BATCH_SIZE as int) }
}

/// The events of the single verifications in a batch.
pub open spec fn verified_events(ids: Seq<u32>) -> Seq<Event> {
    ids.map_values(|id: u32| Event::CampaignVerified { campaign_id: id })
}

proof fn lemma_batch_prefix_ok(s: ContractView, ids: Seq<u32>, i: int)
    requires
        0 <= i <= ids.len(),
        verify_batch(s, ids) is Ok,
    ensures
        verify_batch(s, ids.take(i)) is Ok,
    decreases ids.len(),
{
    if i < ids.len() {
        assert(ids.drop_last().take(i) =~= ids.take(i));
        lemma_batch_prefix_ok(s, ids.drop_last(), i);
    } else {
        assert(ids.take(i) =~= ids);
    }
}

proof fn lemma_batch_err_extends(s: ContractView, ids: Seq<u32>, i: int, e: Error)
    requires
        0 <= i <= ids.len(),
        verify_batch(s, ids.take(i)) == Err::<ContractView, Error>(e),
    ensures
        verify_batch(s, ids) == Err::<ContractView, Error>(e),
    decreases ids.len() - i,
{
    if i < ids.len() {
        assert(ids.take(i + 1).drop_last() =~= ids.take(i));
        lemma_batch_err_extends(s, ids, i + 1, e);
    } else {
        assert(ids.take(i) =~= ids);
    }
}

/// The account's has-voted marks on campaign `id` cleared for each of `voters`.
pub open spec fn clear_votes(s: ContractView, id: u32, voters: Seq<Address>) -> ContractView
    decreases voters.len(),
{
    if voters.len() == 0 {
        s
    } else {
        let t = clear_votes(s, id, voters.drop_last());
        t.with_record(id, voters.last(), ContributorRecord { has_voted: false, ..t.record(id, voters.last()) })
    }
}

impl ProofOfHeart {
    /// Stores the community voting parameters after checking their ranges.
    pub fn set_params(&mut self, min_votes_quorum: u32, approval_threshold_bps: u32) -> (r: Result<(), Error>)
        ensures
            voting_params_valid(min_votes_quorum, approval_threshold_bps) ==> r is Ok && final(self)@ == (ContractView {
                min_votes_quorum: Some(min_votes_quorum),
                approval_threshold_bps: Some(approval_threshold_bps),
                ..old(self)@
            }),
            !voting_params_valid(min_votes_quorum, approval_threshold_bps) ==>
                r == Err::<(), Error>(Error::ValidationFailed) && final(self)@ == old(self)@,
    {
        if min_votes_quorum == 0 || min_votes_quorum > MAX_VOTES_QUORUM || approval_threshold_bps < MIN_APPROVAL_THRESHOLD_BPS
            || approval_threshold_bps > 10000 {
            return Err(Error::ValidationFailed);
        }
        self.min_votes_quorum = Some(min_votes_quorum);
        self.approval_threshold_bps = Some(approval_threshold_bps);
        Ok(())
    }

    /// Records the vote of `voter`, who holds `balance` of the platform token, on
    /// campaign `campaign_id`.
    pub fn cast_vote(&mut self, campaign_id: u32, voter: Address, approve: bool, balance: i128, now: u64) -> (r: Result<(), Error>)
        ensures
            match vote_error(old(self)@, campaign_id, voter, approve, balance, now) {
                Some(e) => r == Err::<(), Error>(e) && final(self)@ == old(self)@,
                None => r is Ok && final(self)@ == voted_state(old(self)@, campaign_id, voter, approve, balance),
            },
    {
        let campaign = match self.load_campaign(campaign_id) {
            Some(c) => c,
            None => return Err(Error::CampaignNotFound),
        };
        if campaign.funds_withdrawn {
            return Err(Error::CampaignNotActive);
        }
        require_active_campaign(&campaign)?;
        if now > campaign.deadline {
            return Err(Error::DeadlinePassed);
        }
        if campaign.is_verified {
            return Err(Error::CampaignAlreadyVerified);
        }
        if balance <= 0 || balance < self.min_voting_balance {
            return Err(Error::NotTokenHolder);
        }
        let mut record = self.load_record(campaign_id, voter);
        if record.has_voted {
            return Err(Error::AlreadyVoted);
        }
        let mut tally = self.load_tally(campaign_id);
        if approve {
            tally.approve_votes = match tally.approve_votes.checked_add(1) {
                Some(n) => n,
                None => return Err(Error::Overflow),
            };
            tally.approve_weight = match tally.approve_weight.checked_add(balance) {
                Some(w) => w,
                None => return Err(Error::Overflow),
            };
        } else {
            tally.reject_votes = match tally.reject_votes.checked_add(1) {
                Some(n) => n,
                None => return Err(Error::Overflow),
            };
            tally.reject_weight = match tally.reject_weight.checked_add(balance) {
                Some(w) => w,
                None => return Err(Error::Overflow),
            };
        }
        self.store_tally(campaign_id, tally);
        record.has_voted = true;
        self.store_record(campaign_id, voter, record);
        Ok(())
    }

    /// `voter`, holding `balance` of the platform token (as the token contract reports
    /// it), approves or rejects an active, unverified campaign before its deadline.
    pub fn vote_on_campaign(&mut self, campaign_id: u32, voter: Address, approve: bool, balance: i128, ledger: Ledger) -> (out: Outcome<()>)
        ensures
            out.signers@ == (if old(self)@.is_paused() { Seq::<Address>::empty() } else { seq![voter] }),
            old(self)@.is_paused() ==> failed(out, Error::ContractPaused) && final(self)@ == old(self)@,
            !old(self)@.is_paused() ==> match vote_error(old(self)@, campaign_id, voter, approve, balance, ledger.timestamp) {
                Some(e) => failed(out, e) && final(self)@ == old(self)@,
                None => {
                    &&& succeeded(out, seq![], seq![Event::CampaignVoteCast {
                        campaign_id: campaign_id,
                        voter: voter,
                        approve: approve,
                        balance: balance,
                    }])
                    &&& final(self)@ == voted_state(old(self)@, campaign_id, voter, approve, balance)
                },
            },
    {
        if let Err(e) = self.require_not_paused() {
            return fail(no_signers(), e);
        }
        match self.cast_vote(campaign_id, voter, approve, balance, ledger.timestamp) {
            Err(e) => fail(signer(voter), e),
            Ok(()) => {
                let ev = Event::CampaignVoteCast { campaign_id, voter, approve, balance };
                succeed(signer(voter), (), no_transfers(), one_event(ev))
            },
        }
    }

    /// Marks campaign `id` verified on the admin's word.
    pub fn admin_verify(&mut self, campaign_id: u32) -> (r: Result<(), Error>)
        ensures
            match verify_error(old(self)@, campaign_id) {
                Some(e) => r == Err::<(), Error>(e) && final(self)@ == old(self)@,
                None => r is Ok && final(self)@ == verified_state(old(self)@, campaign_id),
            },
    {
        let mut campaign = match self.load_campaign(campaign_id) {
            Some(c) => c,
            None => return Err(Error::CampaignNotFound),
        };
        if campaign.is_cancelled {
            return Err(Error::CampaignNotActive);
        }
        if campaign.is_verified {
            return Err(Error::AdminVerificationConflict);
        }
        require_active_campaign(&campaign)?;
        campaign.is_verified = true;
        self.store_campaign(campaign_id, campaign);
        self.verified_campaign_count = self.verified_campaign_count.saturating_add(1);
        assert(self@ =~= verified_state(old(self)@, campaign_id));
        Ok(())
    }

    /// The error verifying campaign `id` would answer with, computed without verifying it.
    fn verify_check(&self, campaign_id: u32) -> (r: Option<Error>)
        ensures
            r == verify_error(self@, campaign_id),
    {
        match self.load_campaign(campaign_id) {
            None => Some(Error::CampaignNotFound),
            Some(c) => if c.is_cancelled {
                Some(Error::CampaignNotActive)
            } else if c.is_verified {
                Some(Error::AdminVerificationConflict)
            } else if !c.is_active {
                Some(Error::CampaignNotActive)
            } else {
                None
            },
        }
    }

    /// The admin verifies a campaign directly.
    pub fn verify_campaign(&mut self, campaign_id: u32) -> (out: Outcome<()>)
        requires
            old(self)@.initialized,
        ensures
            out.signers@ == seq![old(self)@.admin],
            old(self)@.is_paused() ==> failed(out, Error::ContractPaused) && final(self)@ == old(self)@,
            !old(self)@.is_paused() ==> match verify_error(old(self)@, campaign_id) {
                Some(e) => failed(out, e) && final(self)@ == old(self)@,
                None => {
                    &&& succeeded(out, seq![], seq![Event::CampaignVerified { campaign_id: campaign_id }])
                    &&& final(self)@ == verified_state(old(self)@, campaign_id)
                },
            },
    {
        let admin = self.admin;
        if let Err(e) = self.require_not_paused() {
            return fail(signer(admin), e);
        }
        match self.admin_verify(campaign_id) {
            Err(e) => fail(signer(admin), e),
            Ok(()) => succeed(signer(admin), (), no_transfers(), one_event(Event::CampaignVerified { campaign_id })),
        }
    }

    /// The admin verifies the first fifty of `campaign_ids` in one call, all or none:
    /// the first error met is returned and nothing is verified.
    pub fn verify_campaigns(&mut self, campaign_ids: &Vec<u32>) -> (out: Outcome<u32>)
        requires
            old(self)@.initialized,
            campaign_ids.len() <= u32::MAX,
        ensures
            out.signers@ == seq![old(self)@.admin],
            old(self)@.is_paused() ==> failed(out, Error::ContractPaused) && final(self)@ == old(self)@,
            !old(self)@.is_paused() ==> match verify_batch(old(self)@, batch_of(campaign_ids@)) {
                Err(e) => failed(out, e) && final(self)@ == old(self)@,
                Ok(t) => {
                    let n = batch_of(campaign_ids@).len();
                    &&& out.result matches Ok(r) && r.value == n
                    &&& succeeded(out, seq![], verified_events(batch_of(campaign_ids@)).push(
                        Event::CampaignsBulkVerified { verified_count: n as u32, total: campaign_ids.len() as u32 }))
                    &&& final(self)@ == t
                },
            },
    {
        let admin = self.admin;
        if let Err(e) = self.require_not_paused() {
            return fail(signer(admin), e);
        }
        let n: usize = if campaign_ids.len() < MAX_BATCH_SIZE { campaign_ids.len() } else { MAX_BATCH_SIZE };
        let ghost batch = batch_of(campaign_ids@);
        assert(batch =~= campaign_ids@.take(n as int));
        // First pass: find the first error without changing anything.
        let mut seen: Vec<u32> = Vec::new();
        let ghost mut cur = self@;
        let mut i: usize = 0;
        while i < n
            invariant
                self@ == old(self)@,
                admin == old(self)@.admin,
                !old(self)@.is_paused(),
                batch == batch_of(campaign_ids@),
                n <= campaign_ids.len(),
                n <= MAX_BATCH_SIZE,
                batch == campaign_ids@.take(n as int),
                i <= n,
                seen@ == batch.take(i as int),
                verify_batch(self@, batch.take(i as int)) == Ok::<ContractView, Error>(cur),
                cur.campaigns.dom() == self@.campaigns.dom(),
                forall|id: u32| #![trigger cur.campaigns[id]]
                    cur.campaigns.contains_key(id) ==> cur.campaigns[id] == (if seen@.contains(id) {
                        Campaign { is_verified: true, ..self@.campaigns[id] }
                    } else {
                        self@.campaigns[id]
                    }),
                forall|x: u32| #[trigger] seen@.contains(x) ==> cur.campaigns.contains_key(x)
                    && !cur.campaigns[x].is_cancelled && cur.campaigns[x].is_verified,
            decreases n - i,
        {
            let id = campaign_ids[i];
            let mut already = false;
            let mut j: usize = 0;
            while j < seen.len()
                invariant
                    j <= seen.len(),
                    already == exists|m: int| 0 <= m < j && seen@[m] == id,
                decreases seen.len() - j,
            {
                if seen[j] == id {
                    already = true;
                }
                j = j + 1;
            }
            let err = if already { Some(Error::AdminVerificationConflict) } else { self.verify_check(id) };
            proof {
                assert(batch.take(i as int + 1).drop_last() =~= batch.take(i as int));
                assert(batch.take(i as int + 1).last() == id);
                assert(already == seen@.contains(id));
                if already {
                    assert(cur.campaigns.contains_key(id));
                } else if cur.campaigns.contains_key(id) {
                    assert(cur.campaigns[id] == self@.campaigns[id]);
                } else {
                    assert(!self@.campaigns.contains_key(id));
                }
                assert(verify_error(cur, id) == err);
            }
            if let Some(e) = err {
                proof {
                    lemma_batch_err_extends(self@, batch, i as int + 1, e);
                    assert(batch.take(n as int) =~= batch);
                }
                return fail(signer(admin), e);
            }
            proof {
                assert(cur.campaigns.contains_key(id));
                assert(!seen@.contains(id));
                assert(cur.campaigns[id] == self@.campaigns[id]);
            }
            let ghost old_seen = seen@;
            seen.push(id);
            proof {
                cur = verified_state(cur, id);
                assert forall|x: u32| #[trigger] seen@.contains(x) <==> (old_seen.contains(x) || x == id) by {
                    if old_seen.contains(x) {
                        let m = choose|m: int| 0 <= m < old_seen.len() && old_seen[m] == x;
                        assert(seen@[m] == x);
                    }
                    if x == id {
                        assert(seen@[old_seen.len() as int] == id);
                    }
                }
                assert(seen@ =~= batch.take(i as int + 1));
            }
            i = i + 1;
        }
        proof {
            assert(batch.take(n as int) =~= batch);
        }
        // Second pass: every verification succeeds.
        let ghost start = self@;
        let mut events: Vec<Event> = Vec::new();
        let mut k: usize = 0;
        while k < n
            invariant
                n <= campaign_ids.len(),
                n <= MAX_BATCH_SIZE,
                batch == campaign_ids@.take(n as int),
                batch.len() == n,
                k <= n,
                verify_batch(start, batch) is Ok,
                verify_batch(start, batch.take(k as int)) == Ok::<ContractView, Error>(self@),
                events@ == verified_events(batch.take(k as int)),
            decreases n - k,
        {
            let id = campaign_ids[k];
            proof {
                lemma_batch_prefix_ok(start, batch, k as int + 1);
                assert(batch.take(k as int + 1).drop_last() =~= batch.take(k as int));
                assert(batch.take(k as int + 1).last() == id);
            }
            let r = self.admin_verify(id);
            events.push(Event::CampaignVerified { campaign_id: id });
            proof {
                assert(events@ =~= verified_events(batch.take(k as int + 1)));
            }
            k = k + 1;
        }
        proof {
            assert(batch.take(n as int) =~= batch);
        }
        let count = n as u32;
        events.push(Event::CampaignsBulkVerified { verified_count: count, total: campaign_ids.len() as u32 });
        succeed(signer(admin), count, no_transfers(), events)
    }

    /// Marks campaign `campaign_id` verified once its community vote reached the quorum
    /// and the approval threshold.
    pub fn verify_with_votes(&mut self, campaign_id: u32) -> (r: Result<(), Error>)
        ensures
            match vote_verify_error(old(self)@, campaign_id) {
                Some(e) => r == Err::<(), Error>(e) && final(self)@ == old(self)@,
                None => r is Ok && final(self)@ == verified_state(old(self)@, campaign_id),
            },
    {
        let mut campaign = match self.load_campaign(campaign_id) {
            Some(c) => c,
            None => return Err(Error::CampaignNotFound),
        };
        if campaign.is_cancelled {
            return Err(Error::CampaignNotActive);
        }
        if campaign.is_verified {
            return Err(Error::CommunityVerificationConflict);
        }
        require_active_campaign(&campaign)?;
        let tally = self.load_tally(campaign_id);
        let total_votes = match tally.approve_votes.checked_add(tally.reject_votes) {
            Some(v) => v,
            None => return Err(Error::Overflow),
        };
        if total_votes < self.quorum() {
            return Err(Error::VotingQuorumNotMet);
        }
        let total_weight = match tally.approve_weight.checked_add(tally.reject_weight) {
            Some(w) => w,
            None => return Err(Error::Overflow),
        };
        let approval: u32 = if total_weight > 0 {
            match tally.approve_weight.checked_mul(10000) {
                Some(m) => match m.checked_div(total_weight) {
                    Some(q) => q as u32,
                    None => 0,
                },
                None => 0,
            }
        } else {
            0
        };
        if approval < self.threshold() {
            return Err(Error::VotingThresholdNotMet);
        }
        campaign.is_verified = true;
        self.store_campaign(campaign_id, campaign);
        self.verified_campaign_count = self.verified_campaign_count.saturating_add(1);
        assert(self@ =~= verified_state(old(self)@, campaign_id));
        Ok(())
    }

    /// Anyone marks campaign `campaign_id` verified once its community vote reached the
    /// quorum and the approval threshold.
    pub fn verify_campaign_with_votes(&mut self, campaign_id: u32) -> (out: Outcome<()>)
        ensures
            out.signers@ == Seq::<Address>::empty(),
            old(self)@.is_paused() ==> failed(out, Error::ContractPaused) && final(self)@ == old(self)@,
            !old(self)@.is_paused() ==> match vote_verify_error(old(self)@, campaign_id) {
                Some(e) => failed(out, e) && final(self)@ == old(self)@,
                None => {
                    &&& succeeded(out, seq![], seq![Event::CampaignVerifiedByVotes {
                        campaign_id: campaign_id,
                        approve_votes: old(self)@.tally(campaign_id).approve_votes,
                    }])
                    &&& final(self)@ == verified_state(old(self)@, campaign_id)
                },
            },
    {
        if let Err(e) = self.require_not_paused() {
            return fail(no_signers(), e);
        }
        let approve_votes = self.load_tally(campaign_id).approve_votes;
        match self.verify_with_votes(campaign_id) {
            Err(e) => fail(no_signers(), e),
            Ok(()) => {
                let ev = Event::CampaignVerifiedByVotes { campaign_id, approve_votes };
                succeed(no_signers(), (), no_transfers(), one_event(ev))
            },
        }
    }

    /// The number of approving votes on campaign `campaign_id`.
    pub fn get_approve_votes(&self, campaign_id: u32) -> (n: u32)
        ensures
            n == self@.tally(campaign_id).approve_votes,
    {
        self.load_tally(campaign_id).approve_votes
    }

    /// The number of rejecting votes on campaign `campaign_id`.
    pub fn get_reject_votes(&self, campaign_id: u32) -> (n: u32)
        ensures
            n == self@.tally(campaign_id).reject_votes,
    {
        self.load_tally(campaign_id).reject_votes
    }

    /// Whether `voter` has voted on campaign `campaign_id`.
    pub fn has_voted(&self, campaign_id: u32, voter: Address) -> (b: bool)
        ensures
            b == self@.record(campaign_id, voter).has_voted,
    {
        self.load_record(campaign_id, voter).has_voted
    }

    /// The number of votes a community verification needs.
    pub fn get_min_votes_quorum(&self) -> (q: u32)
        ensures
            q == self@.quorum(),
    {
        self.quorum()
    }

    /// The share of approving vote weight a community verification needs, in basis points.
    pub fn get_approval_threshold_bps(&self) -> (t: u32)
        ensures
            t == self@.threshold(),
    {
        self.threshold()
    }

    /// The token balance a voter needs.
    pub fn get_min_voting_balance(&self) -> (b: i128)
        ensures
            b == self@.min_voting_balance,
    {
        self.min_voting_balance
    }
}

} // verus!
