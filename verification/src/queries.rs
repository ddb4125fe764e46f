//! Read-only views of the platform: single campaigns, listings and statistics.
use vstd::prelude::*;

use crate::book::ids_of;
use crate::state::{ContractView, ProofOfHeart};
use crate::types::{Address, Campaign, CampaignReserve, Category, Error, MaybePendingCreator, PlatformStats};

verus! {

/// How many campaign ids past the cursor one active listing looks at.
pub const MAX_SCAN_WINDOW: u32 = 200;

/// The campaigns with an id in `lo..hi` that exist, in id order.
pub open spec fn existing_between(s: ContractView, lo: int, hi: int) -> Seq<Campaign>
    decreases hi - lo,
{
    if hi <= lo {
        Seq::empty()
    } else if s.has_campaign((hi - 1) as u32) {
        existing_between(s, lo, hi - 1).push(s.campaign((hi - 1) as u32))
    } else {
        existing_between(s, lo, hi - 1)
    }
}

/// The campaigns named by `ids` that exist, in the order of `ids`.
pub open spec fn existing_of(s: ContractView, ids: Seq<u32>) -> Seq<Campaign>
    decreases ids.len(),
{
    if ids.len() == 0 {
        Seq::empty()
    } else if s.has_campaign(ids.last()) {
        existing_of(s, ids.drop_last()).push(s.campaign(ids.last()))
    } else {
        existing_of(s, ids.drop_last())
    }
}

/// `limit` capped at the largest page a listing returns.
pub open spec fn capped(limit: u32) -> int {
    if limit < crate::LIST_MAX_LIMIT { limit as int } else { crate::LIST_MAX_LIMIT as int }
}

/// The page `list_campaigns(start, limit)` returns.
pub open spec fn campaigns_page(s: ContractView, start: u32, limit: u32) -> Seq<Campaign> {
    if start >= s.campaign_count || limit == 0 {
        Seq::empty()
    } else {
        let end = if start + capped(limit) < s.campaign_count { start + capped(limit) } else { s.campaign_count as int };
        existing_between(s, start + 1, end + 1)
    }
}

/// The page of an index list `ids`: the existing campaigns among `ids[offset..offset + limit]`.
pub open spec fn index_page(s: ContractView, ids: Seq<u32>, offset: u32, limit: u32) -> Seq<Campaign> {
    if limit == 0 || offset >= ids.len() {
        Seq::empty()
    } else {
        let end = if offset + capped(limit) < ids.len() { offset + capped(limit) } else { ids.len() as int };
        existing_of(s, ids.subrange(offset as int, end))
    }
}

/// Whether an active listing shows campaign `c`.
pub open spec fn is_listed_active(c: Campaign) -> bool {
    c.is_active && !c.is_cancelled
}

/// The existing campaigns that an active listing shows, with an id in `lo..hi`, in id order.
pub open spec fn active_between(s: ContractView, lo: int, hi: int) -> Seq<Campaign>
    decreases hi - lo,
{
    if hi <= lo {
        Seq::empty()
    } else if s.has_campaign((hi - 1) as u32) && is_listed_active(s.campaign((hi - 1) as u32)) {
        active_between(s, lo, hi - 1).push(s.campaign((hi - 1) as u32))
    } else {
        active_between(s, lo, hi - 1)
    }
}

/// What the scan of active campaigns returns when it stands at `id` with `found` collected:
/// the active campaigns among the ids from `id` on, stopping after `cap` of them in all
/// or at the end of the window of ids after `start`, with the last id looked at as the
/// cursor to resume after (zero once the last campaign was looked at).
pub open spec fn active_scan(s: ContractView, start: u32, cap: int, id: int, found: Seq<Campaign>) -> (Seq<Campaign>, u32)
    decreases s.campaign_count + 1 - id,
{
    if id > s.campaign_count {
        (found, 0)
    } else if id > start + MAX_SCAN_WINDOW {
        (found, (id - 1) as u32)
    } else {
        let c = s.campaign(id as u32);
        if s.has_campaign(id as u32) && c.is_active && !c.is_cancelled {
            if found.len() + 1 >= cap {
                (found.push(c), id as u32)
            } else {
                active_scan(s, start, cap, id + 1, found.push(c))
            }
        } else {
            active_scan(s, start, cap, id + 1, found)
        }
    }
}

/// The page and cursor `list_active_campaigns(start, limit)` returns.
pub open spec fn active_page(s: ContractView, start: u32, limit: u32) -> (Seq<Campaign>, u32) {
    if start >= s.campaign_count || limit == 0 {
        (Seq::empty(), 0)
    } else {
        active_scan(s, start, capped(limit), start + 1, Seq::empty())
    }
}

/// The listed campaigns in `lo..mid` followed by those in `mid..hi` are those in `lo..hi`.
pub proof fn lemma_active_between_split(s: ContractView, lo: int, mid: int, hi: int)
    requires
        lo <= mid <= hi,
    ensures
        active_between(s, lo, mid) + active_between(s, mid, hi) == active_between(s, lo, hi),
    decreases hi - mid,
{
    if hi > mid {
        lemma_active_between_split(s, lo, mid, hi - 1);
        let a = active_between(s, lo, mid);
        let b = active_between(s, mid, hi - 1);
        if s.has_campaign((hi - 1) as u32) && is_listed_active(s.campaign((hi - 1) as u32)) {
            assert(a + b.push(s.campaign((hi - 1) as u32)) =~= (a + b).push(s.campaign((hi - 1) as u32)));
        }
    } else {
        assert(active_between(s, lo, mid) + active_between(s, mid, hi) =~= active_between(s, lo, mid));
    }
}

/// A scan that has collected every listed campaign before `id` returns every listed
/// campaign up to its cursor, or up to the last campaign where the cursor is zero.
proof fn lemma_active_scan(s: ContractView, start: u32, cap: int, id: int, found: Seq<Campaign>)
    requires
        start + 1 <= id <= s.campaign_count + 1,
        id <= start + MAX_SCAN_WINDOW + 1,
        found == active_between(s, start + 1, id),
        found.len() < cap,
    ensures
        ({
            let (v, c) = active_scan(s, start, cap, id, found);
            &&& c != 0 ==> start < c <= s.campaign_count && v == active_between(s, start + 1, c + 1)
            &&& c == 0 ==> v == active_between(s, start + 1, s.campaign_count + 1)
            &&& v.len() <= cap
        }),
    decreases s.campaign_count + 1 - id,
{
    if id > s.campaign_count {
    } else if id > start + MAX_SCAN_WINDOW {
    } else {
        let c = s.campaign(id as u32);
        assert((id + 1 - 1) as u32 == id as u32);
        if s.has_campaign(id as u32) && c.is_active && !c.is_cancelled {
            assert(found.push(c) == active_between(s, start + 1, id + 1));
            if found.len() + 1 < cap {
                lemma_active_scan(s, start, cap, id + 1, found.push(c));
            }
        } else {
            assert(found == active_between(s, start + 1, id + 1));
            lemma_active_scan(s, start, cap, id + 1, found);
        }
    }
}

/// An active page holds every listed campaign after `start` up to its cursor, or up to the
/// last campaign where the cursor is zero, and no more than the capped limit.
pub proof fn lemma_active_page(s: ContractView, start: u32, limit: u32)
    requires
        limit > 0,
    ensures
        ({
            let (v, c) = active_page(s, start, limit);
            &&& c != 0 ==> start < c <= s.campaign_count && v == active_between(s, start + 1, c + 1)
            &&& c == 0 ==> v == active_between(s, start + 1, s.campaign_count + 1)
            &&& v.len() <= capped(limit)
        }),
{
    if start >= s.campaign_count {
        assert(active_between(s, start + 1, s.campaign_count + 1) =~= Seq::<Campaign>::empty());
    } else {
        assert(active_between(s, start + 1, start + 1) =~= Seq::<Campaign>::empty());
        lemma_active_scan(s, start, capped(limit), start + 1, Seq::empty());
    }
}

/// The number of existing campaigns with an id in `1..=n` for which `p` holds.
pub open spec fn count_where(s: ContractView, n: int, p: spec_fn(Campaign) -> bool) -> int
    decreases n,
{
    if n <= 0 {
        0
    } else if s.has_campaign(n as u32) && p(s.campaign(n as u32)) {
        count_where(s, n - 1, p) + 1
    } else {
        count_where(s, n - 1, p)
    }
}

/// The platform statistics: counts over every campaign, with the platform's totals.
pub open spec fn stats_of(s: ContractView) -> PlatformStats {
    let n = s.campaign_count as int;
    PlatformStats {
        total_campaigns: s.campaign_count,
        active_campaigns: count_where(s, n, |c: Campaign| c.is_active && !c.is_cancelled) as u32,
        verified_campaigns: count_where(s, n, |c: Campaign| c.is_verified) as u32,
        cancelled_campaigns: count_where(s, n, |c: Campaign| c.is_cancelled) as u32,
        total_amount_raised: s.total_raised_global,
        stats_are_partial: false,
        scanned_up_to: s.campaign_count,
    }
}

impl ProofOfHeart {
    /// Collects the existing campaigns among `ids[from..to]` onto `out`.
    fn collect_ids(&self, ids: &Vec<u32>, from: usize, to: usize, out: &mut Vec<Campaign>)
        requires
            from <= to <= ids.len(),
        ensures
            final(out)@ == old(out)@ + existing_of(self@, ids@.subrange(from as int, to as int)),
    {
        let mut i = from;
        while i < to
            invariant
                from <= i <= to <= ids.len(),
                out@ == old(out)@ + existing_of(self@, ids@.subrange(from as int, i as int)),
            decreases to - i,
        {
            let id = ids[i];
            proof {
                assert(ids@.subrange(from as int, i + 1).drop_last() =~= ids@.subrange(from as int, i as int));
            }
            if let Some(c) = self.load_campaign(id) {
                out.push(c);
                assert(out@ =~= old(out)@ + existing_of(self@, ids@.subrange(from as int, i + 1)));
            } else {
                assert(out@ =~= old(out)@ + existing_of(self@, ids@.subrange(from as int, i + 1)));
            }
            i = i + 1;
        }
    }

    /// Campaign `campaign_id`, or `CampaignNotFound`.
    pub fn get_campaign(&self, campaign_id: u32) -> (r: Result<Campaign, Error>)
        ensures
            r == (if self@.has_campaign(campaign_id) {
                Ok::<Campaign, Error>(self@.campaign(campaign_id))
            } else {
                Err(Error::CampaignNotFound)
            }),
    {
        match self.load_campaign(campaign_id) {
            Some(c) => Ok(c),
            None => Err(Error::CampaignNotFound),
        }
    }

    /// Campaign `campaign_id`, if it exists.
    pub fn get_campaign_optional(&self, campaign_id: u32) -> (r: Option<Campaign>)
        ensures
            r == (if self@.has_campaign(campaign_id) { Some(self@.campaign(campaign_id)) } else { None::<Campaign> }),
    {
        self.load_campaign(campaign_id)
    }

    /// The number of campaigns ever created (the id of the last one).
    pub fn get_campaign_count(&self) -> (n: u32)
        ensures
            n == self@.campaign_count,
    {
        self.campaign_count
    }

    /// The sum of all escrowed contributions on the platform.
    pub fn get_total_raised_global(&self) -> (t: i128)
        ensures
            t == self@.total_raised_global,
    {
        self.total_raised_global
    }

    /// The version of the platform's state layout.
    pub fn get_version(&self) -> (v: u32)
        ensures
            v == self@.version,
    {
        self.version
    }

    /// The admin of an initialised platform.
    pub fn get_admin(&self) -> (a: Address)
        requires
            self@.initialized,
        ensures
            a == self@.admin,
    {
        self.admin
    }

    /// The account an admin transfer is waiting on, if any.
    pub fn get_pending_admin(&self) -> (a: Option<Address>)
        ensures
            a == self@.pending_admin,
    {
        self.pending_admin
    }

    /// The token of an initialised platform.
    pub fn get_token(&self) -> (t: Address)
        requires
            self@.initialized,
        ensures
            t == self@.token,
    {
        self.token
    }

    /// The platform fee, in basis points.
    pub fn get_platform_fee(&self) -> (f: u32)
        ensures
            f == self@.platform_fee,
    {
        self.platform_fee
    }

    /// The smallest funding goal a new campaign may have.
    pub fn get_min_campaign_funding_goal(&self) -> (g: i128)
        ensures
            g == self@.effective_min_goal(),
    {
        self.effective_min_goal()
    }

    /// The largest funding goal a new campaign may have.
    pub fn get_max_campaign_funding_goal(&self) -> (g: i128)
        ensures
            g == self@.effective_max_goal(),
    {
        self.effective_max_goal()
    }

    /// The vesting reserve held back from campaign `campaign_id`, if any.
    pub fn get_campaign_reserve(&self, campaign_id: u32) -> (r: Option<CampaignReserve>)
        ensures
            r == self@.tally(campaign_id).reserve,
    {
        self.load_tally(campaign_id).reserve
    }

    /// Whether an ownership transfer of campaign `campaign_id` waits to be accepted.
    pub fn has_pending_campaign_transfer(&self, campaign_id: u32) -> (b: bool)
        ensures
            b == (self@.has_campaign(campaign_id) && self@.campaign(campaign_id).pending_creator is Pending),
    {
        match self.load_campaign(campaign_id) {
            Some(c) => match c.pending_creator {
                MaybePendingCreator::Pending(_) => true,
                MaybePendingCreator::NotPending => false,
            },
            None => false,
        }
    }

    /// The campaigns with ids `start + 1 ..= start + limit` (at most fifty, and no
    /// further than the last campaign) that exist, in id order.
    pub fn list_campaigns(&self, start: u32, limit: u32) -> (page: Vec<Campaign>)
        ensures
            page@ == campaigns_page(self@, start, limit),
    {
        let total = self.campaign_count;
        let mut page: Vec<Campaign> = Vec::new();
        if start >= total || limit == 0 {
            return page;
        }
        let cap = if limit < crate::LIST_MAX_LIMIT { limit } else { crate::LIST_MAX_LIMIT };
        let stop = start.saturating_add(cap);
        let end = if stop < total { stop } else { total };
        let mut id: u64 = start as u64 + 1;
        while id <= end as u64
            invariant
                start < end <= total == self@.campaign_count,
                start + 1 <= id <= end + 1,
                page@ == existing_between(self@, start + 1, id as int),
            decreases end + 1 - id,
        {
            if let Some(c) = self.load_campaign(id as u32) {
                page.push(c);
            }
            id = id + 1;
        }
        page
    }

    /// The active campaigns after id `start`, at most `limit` (and fifty) of them, looking
    /// at no more than two hundred ids; with the last id looked at, from which the next
    /// page goes on, or zero once the last campaign was looked at.
    pub fn list_active_campaigns(&self, start: u32, limit: u32) -> (r: (Vec<Campaign>, u32))
        requires
            start < self@.campaign_count && limit > 0 ==> start + MAX_SCAN_WINDOW < u32::MAX,
        ensures
            r.0@ == active_page(self@, start, limit).0,
            r.1 == active_page(self@, start, limit).1,
    {
        let total = self.campaign_count;
        let mut page: Vec<Campaign> = Vec::new();
        if start >= total || limit == 0 {
            return (page, 0);
        }
        let cap = if limit < crate::LIST_MAX_LIMIT { limit } else { crate::LIST_MAX_LIMIT };
        let mut collected: u32 = 0;
        let mut id: u32 = start + 1;
        let window_end: u32 = start + MAX_SCAN_WINDOW;
        while id <= total
            invariant
                total == self@.campaign_count,
                window_end == start + MAX_SCAN_WINDOW < u32::MAX,
                0 < cap <= crate::LIST_MAX_LIMIT,
                cap == capped(limit),
                start + 1 <= id <= window_end + 1,
                collected == page@.len() < cap,
                active_scan(self@, start, cap as int, id as int, page@) == active_page(self@, start, limit),
            decreases total + 1 - id,
        {
            if id > window_end {
                return (page, id - 1);
            }
            if let Some(c) = self.load_campaign(id) {
                if c.is_active && !c.is_cancelled {
                    page.push(c);
                    collected = collected + 1;
                    if collected >= cap {
                        return (page, id);
                    }
                }
            }
            id = id + 1;
        }
        (page, 0)
    }

    /// The campaigns of category `category` from position `offset` on, at most `limit`
    /// (and fifty) of them, in the order they were created.
    pub fn get_campaigns_by_category(&self, category: Category, offset: u32, limit: u32) -> (page: Vec<Campaign>)
        ensures
            page@ == index_page(self@, self@.category_ids(category), offset, limit),
    {
        let ids: &Vec<u32> = match category {
            Category::Learner => &self.learner_ids,
            Category::Educator => &self.educator_ids,
            Category::Publisher => &self.publisher_ids,
            Category::EducationalStartup => &self.startup_ids,
        };
        let mut page: Vec<Campaign> = Vec::new();
        if limit == 0 || offset as usize >= ids.len() {
            return page;
        }
        let cap = if limit < crate::LIST_MAX_LIMIT { limit } else { crate::LIST_MAX_LIMIT };
        let stop: u64 = offset as u64 + cap as u64;
        let end: usize = if stop < ids.len() as u64 { stop as usize } else { ids.len() };
        self.collect_ids(ids, offset as usize, end, &mut page);
        page
    }

    /// The campaigns `creator` owns from position `start` on, at most `limit` (and fifty)
    /// of them, in the order it came to own them.
    pub fn get_creator_campaigns(&self, creator: Address, start: u32, limit: u32) -> (page: Vec<Campaign>)
        requires
            start < self@.creator_ids(creator).len() && limit > 0 ==> start + capped(limit) <= u32::MAX,
        ensures
            page@ == index_page(self@, self@.creator_ids(creator), start, limit),
    {
        let total = self.creators.count(creator);
        let mut page: Vec<Campaign> = Vec::new();
        let cap = if limit < crate::LIST_MAX_LIMIT { limit } else { crate::LIST_MAX_LIMIT };
        if start as usize >= total || cap == 0 {
            return page;
        }
        let stop: usize = start as usize + cap as usize;
        let end = if stop < total { stop } else { total };
        let ghost ids = ids_of(self.creators@, creator);
        let mut i: usize = start as usize;
        while i < end
            invariant
                start <= i <= end <= total == ids.len(),
                ids == self@.creator_ids(creator),
                page@ == existing_of(self@, ids.subrange(start as int, i as int)),
            decreases end - i,
        {
            let id = self.creators.id_at(creator, i);
            proof {
                assert(ids.subrange(start as int, i + 1).drop_last() =~= ids.subrange(start as int, i as int));
            }
            if let Some(c) = self.load_campaign(id) {
                page.push(c);
            }
            i = i + 1;
        }
        page
    }

    /// Counts of the active, verified and cancelled campaigns over every campaign, with
    /// the platform's totals; never partial.
    pub fn get_platform_stats(&self) -> (st: PlatformStats)
        ensures
            st == stats_of(self@),
    {
        let total = self.campaign_count;
        let mut active: u32 = 0;
        let mut verified: u32 = 0;
        let mut cancelled: u32 = 0;
        let mut id: u64 = 1;
        while id <= total as u64
            invariant
                total == self@.campaign_count,
                1 <= id <= total + 1,
                active == count_where(self@, id - 1, |c: Campaign| c.is_active && !c.is_cancelled),
                verified == count_where(self@, id - 1, |c: Campaign| c.is_verified),
                cancelled == count_where(self@, id - 1, |c: Campaign| c.is_cancelled),
                active < id && verified < id && cancelled < id,
            decreases total + 1 - id,
        {
            if let Some(c) = self.load_campaign(id as u32) {
                if c.is_active && !c.is_cancelled {
                    active = active + 1;
                }
                if c.is_verified {
                    verified = verified + 1;
                }
                if c.is_cancelled {
                    cancelled = cancelled + 1;
                }
            }
            id = id + 1;
        }
        PlatformStats {
            total_campaigns: total,
            active_campaigns: active,
            verified_campaigns: verified,
            cancelled_campaigns: cancelled,
            total_amount_raised: self.total_raised_global,
            stats_are_partial: false,
            scanned_up_to: total,
        }
    }
}

} // verus!
