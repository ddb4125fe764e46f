//! Guards shared by the entry points: campaign state checks, pause, admin checks.
use vstd::prelude::*;

use crate::state::ProofOfHeart;
use crate::types::{Address, Campaign, Error};

verus! {

/// The account whose authorization acting as the creator of `campaign` demands.
pub fn assert_creator(campaign: &Campaign) -> (signer: Address)
    ensures
        signer == campaign.creator,
{
    campaign.creator
}

/// Whether `campaign` still takes part in the platform: neither cancelled nor closed.
pub open spec fn campaign_is_active(campaign: Campaign) -> bool {
    !campaign.is_cancelled && campaign.is_active
}

/// Fails with `CampaignNotActive` unless the campaign is active and not cancelled.
pub fn require_active_campaign(campaign: &Campaign) -> (r: Result<(), Error>)
    ensures
        r == (if campaign_is_active(*campaign) {
            Ok::<(), Error>(())
        } else {
            Err(Error::CampaignNotActive)
        }),
{
    if campaign.is_cancelled || !campaign.is_active {
        return Err(Error::CampaignNotActive);
    }
    Ok(())
}

/// Fails with `CampaignAlreadyVerified` once the campaign is verified.
pub fn require_unverified_campaign(campaign: &Campaign) -> (r: Result<(), Error>)
    ensures
        r == (if campaign.is_verified {
            Err(Error::CampaignAlreadyVerified)
        } else {
            Ok::<(), Error>(())
        }),
{
    if campaign.is_verified {
        return Err(Error::CampaignAlreadyVerified);
    }
    Ok(())
}

/// Fails with `error` unless the campaign shares revenue.
pub fn require_revenue_sharing(campaign: &Campaign, error: Error) -> (r: Result<(), Error>)
    ensures
        r == (if campaign.has_revenue_sharing {
            Ok::<(), Error>(())
        } else {
            Err(error)
        }),
{
    if !campaign.has_revenue_sharing {
        return Err(error);
    }
    Ok(())
}

/// The moment `duration_days` days after `current_time`, or `ValidationFailed` if it
/// does not fit in a `u64`.
pub fn calculate_deadline(current_time: u64, duration_days: u64) -> (r: Result<u64, Error>)
    ensures
        r == (if current_time + duration_days * crate::SECONDS_PER_DAY <= u64::MAX {
            Ok::<u64, Error>((current_time + duration_days * crate::SECONDS_PER_DAY) as u64)
        } else {
            Err(Error::ValidationFailed)
        }),
{
    let seconds_in_duration = match duration_days.checked_mul(86400) {
        Some(s) => s,
        None => {
            assert(duration_days * 86400 > u64::MAX);
            assert(current_time + duration_days * 86400 > u64::MAX);
            return Err(Error::ValidationFailed);
        },
    };
    match current_time.checked_add(seconds_in_duration) {
        Some(d) => Ok(d),
        None => Err(Error::ValidationFailed),
    }
}

impl ProofOfHeart {
    /// Fails with `ContractPaused` while the platform is paused by the admin or automatically.
    pub fn require_not_paused(&self) -> (r: Result<(), Error>)
        ensures
            r == (if self@.is_paused() {
                Err(Error::ContractPaused)
            } else {
                Ok::<(), Error>(())
            }),
    {
        if self.paused || self.auto_paused {
            return Err(Error::ContractPaused);
        }
        Ok(())
    }

    /// Fails with `NotAuthorized` unless `caller` is the admin.  When it is, the call
    /// goes on to demand the caller's authorization.
    pub fn assert_admin(&self, caller: Address) -> (r: Result<(), Error>)
        ensures
            r == (if caller == self@.admin {
                Ok::<(), Error>(())
            } else {
                Err(Error::NotAuthorized)
            }),
    {
        if caller != self.admin {
            return Err(Error::NotAuthorized);
        }
        Ok(())
    }

    /// Fails with `CampaignNotFound` unless campaign `id` exists.
    pub fn require_campaign(&self, id: u32) -> (r: Result<(), Error>)
        ensures
            r == (if self@.has_campaign(id) {
                Ok::<(), Error>(())
            } else {
                Err(Error::CampaignNotFound)
            }),
    {
        if !self.campaign_exists(id) {
            return Err(Error::CampaignNotFound);
        }
        Ok(())
    }
}

} // verus!
