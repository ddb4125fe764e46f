//! Withdrawal of raised funds, the vesting reserve, and the vesting parameters.
use vstd::prelude::*;

use crate::campaigns::{creator_signers, dec};
use crate::state::{
    admin_signers, fail, failed, no_signers, one_event, one_transfer, signer, succeed, succeeded,
    two_events, two_transfers, CampaignTally, ContractView, ProofOfHeart,
};
use crate::types::{Address, Campaign, CampaignReserve, Error, Event, Ledger, Outcome, Transfer};

verus! {

/// Integer division rounding toward zero, as the machine divides.
pub open spec fn trunc_div(a: int, b: int) -> int
    recommends
        b > 0,
{
    if a >= 0 {
        a / b
    } else {
        -((-a) / b)
    }
}

/// `bps` basis points of `amount`, rounded up as `(amount * bps + 9999) / 10000`;
/// `None` when an intermediate value leaves the range of `i128`.
pub open spec fn bps_ceil(amount: i128, bps: u32) -> Option<i128> {
    let n = amount * bps + 9999;
    if amount * bps < i128::MIN || amount * bps > i128::MAX || n > i128::MAX {
        None
    } else {
        Some(trunc_div(n, 10000) as i128)
    }
}

/// `(amount * bps + 9999) / 10000`, or `None` when it leaves the range of `i128`.
pub fn compute_bps_ceil(amount: i128, bps: u32) -> (r: Option<i128>)
    ensures
        r == bps_ceil(amount, bps),
{
    let product = match amount.checked_mul(bps as i128) {
        Some(p) => p,
        None => return None,
    };
    let n = match product.checked_add(9999) {
        Some(n) => n,
        None => return None,
    };
    if n >= 0 {
        Some(n / 10000)
    } else {
        let m = -n;
        Some(-(m / 10000))
    }
}

/// The fee rate of a campaign: its override, or the platform fee.
pub open spec fn fee_rate(s: ContractView, c: Campaign) -> u32 {
    match c.fee_override {
        Some(f) => f,
        None => s.platform_fee,
    }
}

/// How a withdrawal splits the raised amount: (platform fee, paid to the creator now,
/// held back as reserve); `None` when the arithmetic leaves the range of `i128`.
pub open spec fn withdrawal_split(raised: i128, fee_bps: u32, reserve_bps: u32) -> Option<(i128, i128, i128)> {
    match bps_ceil(raised, fee_bps) {
        None => None,
        Some(fee) => {
            let after_fee = raised - fee;
            if after_fee < i128::MIN || after_fee > i128::MAX {
                None
            } else {
                match bps_ceil(after_fee as i128, reserve_bps) {
                    None => None,
                    Some(reserve) => {
                        let now_paid = after_fee - reserve;
                        if now_paid < i128::MIN || now_paid > i128::MAX {
                            None
                        } else {
                            Some((fee, now_paid as i128, reserve))
                        }
                    },
                }
            }
        },
    }
}

/// The split of the raised amount of campaign `id` under the current rates.
pub open spec fn split_of(s: ContractView, id: u32) -> Option<(i128, i128, i128)> {
    withdrawal_split(s.campaign(id).amount_raised, fee_rate(s, s.campaign(id)), s.reserve_bps)
}

/// When the reserve of a withdrawal at `now` is released.
pub open spec fn release_time(s: ContractView, now: u64) -> int {
    now + s.vesting_delay_days * crate::SECONDS_PER_DAY
}

/// The error `withdraw_funds` answers with, if any.
pub open spec fn withdraw_error(s: ContractView, id: u32, now: u64) -> Option<Error> {
    if !s.has_campaign(id) {
        Some(Error::CampaignNotFound)
    } else if s.is_paused() {
        Some(Error::ContractPaused)
    } else if !s.campaign(id).is_verified {
        Some(Error::CampaignNotVerified)
    } else if s.campaign(id).is_cancelled {
        Some(Error::CampaignNotActive)
    } else if s.campaign(id).funds_withdrawn {
        Some(Error::FundsAlreadyWithdrawn)
    } else if s.campaign(id).amount_raised == 0 {
        Some(Error::NoFundsToWithdraw)
    } else if s.campaign(id).amount_raised < s.campaign(id).funding_goal {
        Some(Error::FundingGoalNotReached)
    } else if split_of(s, id) is None {
        Some(Error::Overflow)
    } else if split_of(s, id).unwrap().2 > 0 && release_time(s, now) > u64::MAX {
        Some(Error::Overflow)
    } else if s.campaign(id).amount_raised - split_of(s, id).unwrap().2 < i128::MIN
        || s.campaign(id).amount_raised - split_of(s, id).unwrap().2 > i128::MAX {
        Some(Error::Overflow)
    } else if s.total_raised_global - (s.campaign(id).amount_raised - split_of(s, id).unwrap().2) < i128::MIN
        || s.total_raised_global - (s.campaign(id).amount_raised - split_of(s, id).unwrap().2) > i128::MAX {
        Some(Error::Overflow)
    } else {
        None
    }
}

/// The state after `withdraw_funds` succeeds.
pub open spec fn withdrawn_state(s: ContractView, id: u32, now: u64) -> ContractView {
    let c = s.campaign(id);
    let reserve = split_of(s, id).unwrap().2;
    let t = s.tally(id);
    ContractView {
        campaigns: s.campaigns.insert(id, Campaign { funds_withdrawn: true, is_active: false, ..c }),
        tallies: if reserve > 0 {
            s.tallies.insert(id, CampaignTally {
                reserve: Some(CampaignReserve {
                    amount: reserve,
                    release_timestamp: release_time(s, now) as u64,
                    released: false,
                }),
                ..t
            })
        } else {
            s.tallies
        },
        active_campaign_count: dec(s.active_campaign_count),
        total_raised_global: (s.total_raised_global - (c.amount_raised - reserve)) as i128,
        ..s
    }
}

/// The error `withdraw_reserve` answers with, if any.
pub open spec fn reserve_error(s: ContractView, id: u32, now: u64) -> Option<Error> {
    if s.tally(id).reserve is None {
        Some(Error::NoFundsToWithdraw)
    } else if s.is_paused() {
        Some(Error::ContractPaused)
    } else if s.tally(id).reserve.unwrap().released {
        Some(Error::FundsAlreadyWithdrawn)
    } else if now < s.tally(id).reserve.unwrap().release_timestamp {
        Some(Error::ValidationFailed)
    } else if !s.has_campaign(id) {
        Some(Error::CampaignNotFound)
    } else if s.total_raised_global - s.tally(id).reserve.unwrap().amount < i128::MIN
        || s.total_raised_global - s.tally(id).reserve.unwrap().amount > i128::MAX {
        Some(Error::Overflow)
    } else {
        None
    }
}

/// The state after the reserve of campaign `id` was paid out.
pub open spec fn reserve_released_state(s: ContractView, id: u32) -> ContractView {
    let r = s.tally(id).reserve.unwrap();
    ContractView {
        tallies: s.tallies.insert(id, CampaignTally { reserve: Some(CampaignReserve { released: true, ..r }), ..s.tally(id) }),
        total_raised_global: (s.total_raised_global - r.amount) as i128,
        ..s
    }
}

/// The error `set_vesting_params` answers with, if any.
pub open spec fn vesting_error(s: ContractView, caller: Address, delay_days: u64, reserve_bps: u32) -> Option<Error> {
    if caller != s.admin {
        Some(Error::NotAuthorized)
    } else if s.is_paused() {
        Some(Error::ContractPaused)
    } else if reserve_bps > 10000 || delay_days > MAX_VESTING_DELAY_DAYS {
        Some(Error::ValidationFailed)
    } else if delay_days == 0 && reserve_bps > 0 {
        Some(Error::InvalidVestingDelay)
    } else {
        None
    }
}

/// The longest vesting delay, in days.
pub const MAX_VESTING_DELAY_DAYS: u64 = 365;

impl ProofOfHeart {
    /// The creator of a verified campaign that reached its goal takes the raised funds:
    /// the platform fee goes to the admin, a reserve share is held back until the
    /// vesting delay has passed, and the rest goes to the creator.
    pub fn withdraw_funds(&mut self, campaign_id: u32, ledger: Ledger) -> (out: Outcome<()>)
        requires
            withdraw_error(old(self)@, campaign_id, ledger.timestamp) is None ==> old(self)@.initialized,
        ensures
            out.signers@ == creator_signers(old(self)@, campaign_id),
            match withdraw_error(old(self)@, campaign_id, ledger.timestamp) {
                Some(e) => failed(out, e) && final(self)@ == old(self)@,
                None => {
                    let c = old(self)@.campaign(campaign_id);
                    let (fee, paid, reserve) = split_of(old(self)@, campaign_id).unwrap();
                    let withdrawal = Event::Withdrawal {
                        campaign_id: campaign_id,
                        creator: c.creator,
                        fee_amount: fee,
                        creator_amount: paid,
                        reserve_amount: reserve,
                    };
                    &&& succeeded(out,
                        seq![
                            Transfer::OutOfEscrow { to: old(self)@.admin, amount: fee },
                            Transfer::OutOfEscrow { to: c.creator, amount: paid },
                        ],
                        if reserve > 0 {
                            seq![withdrawal, Event::ReserveWithheld { campaign_id: campaign_id, amount: reserve }]
                        } else {
                            seq![withdrawal]
                        })
                    &&& final(self)@ == withdrawn_state(old(self)@, campaign_id, ledger.timestamp)
                },
            },
    {
        let mut campaign = match self.load_campaign(campaign_id) {
            Some(c) => c,
            None => return fail(no_signers(), Error::CampaignNotFound),
        };
        let creator = campaign.creator;
        if let Err(e) = self.require_not_paused() {
            return fail(signer(creator), e);
        }
        if !campaign.is_verified {
            return fail(signer(creator), Error::CampaignNotVerified);
        }
        if campaign.is_cancelled {
            return fail(signer(creator), Error::CampaignNotActive);
        }
        if campaign.funds_withdrawn {
            return fail(signer(creator), Error::FundsAlreadyWithdrawn);
        }
        let raised = campaign.amount_raised;
        if raised == 0 {
            return fail(signer(creator), Error::NoFundsToWithdraw);
        }
        if raised < campaign.funding_goal {
            return fail(signer(creator), Error::FundingGoalNotReached);
        }
        let fee_bps = match campaign.fee_override {
            Some(f) => f,
            None => self.platform_fee,
        };
        let fee = match compute_bps_ceil(raised, fee_bps) {
            Some(f) => f,
            None => return fail(signer(creator), Error::Overflow),
        };
        let after_fee = match raised.checked_sub(fee) {
            Some(a) => a,
            None => return fail(signer(creator), Error::Overflow),
        };
        let reserve = match compute_bps_ceil(after_fee, self.reserve_bps) {
            Some(r) => r,
            None => return fail(signer(creator), Error::Overflow),
        };
        let paid = match after_fee.checked_sub(reserve) {
            Some(p) => p,
            None => return fail(signer(creator), Error::Overflow),
        };
        let mut release_timestamp: u64 = 0;
        if reserve > 0 {
            release_timestamp = match self.vesting_delay_days.checked_mul(crate::SECONDS_PER_DAY) {
                Some(d) => match ledger.timestamp.checked_add(d) {
                    Some(t) => t,
                    None => return fail(signer(creator), Error::Overflow),
                },
                None => return fail(signer(creator), Error::Overflow),
            };
        }
        let new_total = match raised.checked_sub(reserve) {
            Some(released_now) => match self.total_raised_global.checked_sub(released_now) {
                Some(t) => t,
                None => return fail(signer(creator), Error::Overflow),
            },
            None => return fail(signer(creator), Error::Overflow),
        };
        let admin = self.admin;
        campaign.funds_withdrawn = true;
        campaign.is_active = false;
        self.store_campaign(campaign_id, campaign);
        self.active_campaign_count = self.active_campaign_count.saturating_sub(1);
        if reserve > 0 {
            let mut tally = self.load_tally(campaign_id);
            tally.reserve = Some(CampaignReserve { amount: reserve, release_timestamp, released: false });
            self.store_tally(campaign_id, tally);
        }
        self.total_raised_global = new_total;
        assert(self@ =~= withdrawn_state(old(self)@, campaign_id, ledger.timestamp));
        let transfers = two_transfers(
            Transfer::OutOfEscrow { to: admin, amount: fee },
            Transfer::OutOfEscrow { to: creator, amount: paid },
        );
        let withdrawal = Event::Withdrawal {
            campaign_id,
            creator,
            fee_amount: fee,
            creator_amount: paid,
            reserve_amount: reserve,
        };
        let events = if reserve > 0 {
            two_events(withdrawal, Event::ReserveWithheld { campaign_id, amount: reserve })
        } else {
            one_event(withdrawal)
        };
        succeed(signer(creator), (), transfers, events)
    }

    /// The creator takes the reserve held back at withdrawal once its release time has come.
    pub fn withdraw_reserve(&mut self, campaign_id: u32, ledger: Ledger) -> (out: Outcome<()>)
        ensures
            out.signers@ == (if reserve_error(old(self)@, campaign_id, ledger.timestamp) is None
                || reserve_error(old(self)@, campaign_id, ledger.timestamp) == Some(Error::Overflow) {
                seq![old(self)@.campaign(campaign_id).creator]
            } else {
                Seq::<Address>::empty()
            }),
            match reserve_error(old(self)@, campaign_id, ledger.timestamp) {
                Some(e) => failed(out, e) && final(self)@ == old(self)@,
                None => {
                    let c = old(self)@.campaign(campaign_id);
                    let r = old(self)@.tally(campaign_id).reserve.unwrap();
                    &&& succeeded(out,
                        seq![Transfer::OutOfEscrow { to: c.creator, amount: r.amount }],
                        seq![Event::ReserveReleased { campaign_id: campaign_id, creator: c.creator, amount: r.amount }])
                    &&& final(self)@ == reserve_released_state(old(self)@, campaign_id)
                },
            },
    {
        let mut tally = self.load_tally(campaign_id);
        let mut reserve = match tally.reserve {
            Some(r) => r,
            None => return fail(no_signers(), Error::NoFundsToWithdraw),
        };
        if let Err(e) = self.require_not_paused() {
            return fail(no_signers(), e);
        }
        if reserve.released {
            return fail(no_signers(), Error::FundsAlreadyWithdrawn);
        }
        if ledger.timestamp < reserve.release_timestamp {
            return fail(no_signers(), Error::ValidationFailed);
        }
        let creator = match self.load_campaign(campaign_id) {
            Some(c) => c.creator,
            None => return fail(no_signers(), Error::CampaignNotFound),
        };
        let new_total = match self.total_raised_global.checked_sub(reserve.amount) {
            Some(t) => t,
            None => return fail(signer(creator), Error::Overflow),
        };
        let amount = reserve.amount;
        reserve.released = true;
        tally.reserve = Some(reserve);
        self.store_tally(campaign_id, tally);
        self.total_raised_global = new_total;
        succeed(
            signer(creator),
            (),
            one_transfer(Transfer::OutOfEscrow { to: creator, amount }),
            one_event(Event::ReserveReleased { campaign_id, creator, amount }),
        )
    }

    /// The admin sets how long reserves are held and what share of a withdrawal they take.
    /// Both zero switch vesting off.
    pub fn set_vesting_params(&mut self, caller: Address, delay_days: u64, reserve_bps: u32) -> (out: Outcome<()>)
        ensures
            out.signers@ == admin_signers(old(self)@, caller),
            match vesting_error(old(self)@, caller, delay_days, reserve_bps) {
                Some(e) => failed(out, e) && final(self)@ == old(self)@,
                None => {
                    &&& succeeded(out, seq![], if delay_days == 0 && reserve_bps == 0 {
                        seq![Event::VestingDisabled { admin: caller }]
                    } else {
                        seq![Event::VestingParamsUpdated { admin: caller, delay_days: delay_days, reserve_bps: reserve_bps }]
                    })
                    &&& final(self)@ == (ContractView { vesting_delay_days: delay_days, reserve_bps: reserve_bps, ..old(self)@ })
                },
            },
    {
        if let Err(e) = self.assert_admin(caller) {
            return fail(no_signers(), e);
        }
        if let Err(e) = self.require_not_paused() {
            return fail(signer(caller), e);
        }
        if reserve_bps > 10000 || delay_days > MAX_VESTING_DELAY_DAYS {
            return fail(signer(caller), Error::ValidationFailed);
        }
        if delay_days == 0 && reserve_bps > 0 {
            return fail(signer(caller), Error::InvalidVestingDelay);
        }
        self.vesting_delay_days = delay_days;
        self.reserve_bps = reserve_bps;
        let ev = if delay_days == 0 && reserve_bps == 0 {
            Event::VestingDisabled { admin: caller }
        } else {
            Event::VestingParamsUpdated { admin: caller, delay_days, reserve_bps }
        };
        succeed(signer(caller), (), crate::state::no_transfers(), one_event(ev))
    }
}

} // verus!
