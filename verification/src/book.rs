//! Per-contributor bookkeeping of every campaign, keyed by (campaign id, account).
use std::collections::HashMap;
use vstd::prelude::*;

use crate::types::Address;

verus! {

broadcast use vstd::std_specs::hash::group_hash_axioms;

/// What the platform remembers about one account in one campaign.
#[derive(Clone, Copy, Debug, PartialEq, Eq, Structural)]
pub struct ContributorRecord {
    /// The amount currently escrowed for this account (zero after a refund).
    pub contribution: i128,
    /// The running total this account has put in, counted against its caps.
    pub lifetime_contribution: i128,
    /// The revenue this account has already been paid.
    pub revenue_claimed: i128,
    /// The ceiling the account set on its own contributions, if any.
    pub personal_cap: Option<i128>,
    /// Whether the account has voted on the campaign.
    pub has_voted: bool,
}

/// The record of an account that the platform has never seen.
pub open spec fn empty_record() -> ContributorRecord {
    ContributorRecord {
        contribution: 0,
        lifetime_contribution: 0,
        revenue_claimed: 0,
        personal_cap: None,
        has_voted: false,
    }
}

/// The record of `account` in `campaign_id` under the bookkeeping `m`.
pub open spec fn record_of(
    m: Map<(u32, Address), ContributorRecord>,
    campaign_id: u32,
    account: Address,
) -> ContributorRecord {
    if m.contains_key((campaign_id, account)) {
        m[(campaign_id, account)]
    } else {
        empty_record()
    }
}

/// The single number under which the pair (campaign id, account) is filed.
pub open spec fn book_key(campaign_id: u32, account: Address) -> u128 {
    ((campaign_id as u128) << 64u128) | (account as u128)
}

proof fn lemma_book_key_injective(c1: u32, a1: u64, c2: u32, a2: u64)
    ensures
        book_key(c1, a1) == book_key(c2, a2) ==> c1 == c2 && a1 == a2,
{
    assert((((c1 as u128) << 64u128) | (a1 as u128)) == (((c2 as u128) << 64u128) | (
    a2 as u128)) ==> c1 == c2 && a1 == a2) by (bit_vector);
}

/// Contributor records of all campaigns.
pub struct ContributorBook {
    entries: HashMap<u128, ContributorRecord>,
}

impl ContributorBook {
    pub closed spec fn view(&self) -> Map<(u32, Address), ContributorRecord> {
        Map::new(
            |k: (u32, Address)| self.entries@.contains_key(book_key(k.0, k.1)),
            |k: (u32, Address)| self.entries@[book_key(k.0, k.1)],
        )
    }

    pub fn new() -> (b: ContributorBook)
        ensures
            b@ == Map::<(u32, Address), ContributorRecord>::empty(),
    {
        let b = ContributorBook { entries: HashMap::new() };
        assert(b@ =~= Map::<(u32, Address), ContributorRecord>::empty());
        b
    }

    /// The record of `account` in `campaign_id`.
    pub fn get(&self, campaign_id: u32, account: Address) -> (r: ContributorRecord)
        ensures
            r == record_of(self@, campaign_id, account),
    {
        let key: u128 = ((campaign_id as u128) << 64u128) | (account as u128);
        match self.entries.get(&key) {
            Some(r) => *r,
            None => ContributorRecord {
                contribution: 0,
                lifetime_contribution: 0,
                revenue_claimed: 0,
                personal_cap: None,
                has_voted: false,
            },
        }
    }

    /// Files `record` as the record of `account` in `campaign_id`.
    pub fn set(&mut self, campaign_id: u32, account: Address, record: ContributorRecord)
        ensures
            final(self)@ == old(self)@.insert((campaign_id, account), record),
    {
        let key: u128 = ((campaign_id as u128) << 64u128) | (account as u128);
        let ghost before = self.entries@;
        self.entries.insert(key, record);
        proof {
            assert forall|k: (u32, Address)|
                #![trigger book_key(k.0, k.1)]
                book_key(k.0, k.1) == key implies k == (campaign_id, account) by {
                lemma_book_key_injective(k.0, k.1, campaign_id, account);
            }
            assert(self@ =~= old(self)@.insert((campaign_id, account), record));
        }
    }
}

/// `s` with the first occurrence of `x` taken out (`s` itself when `x` does not occur).
pub open spec fn without_first(s: Seq<u32>, x: u32) -> Seq<u32>
    decreases s.len(),
{
    if s.len() == 0 {
        s
    } else if s[0] == x {
        s.drop_first()
    } else {
        seq![s[0]].add(without_first(s.drop_first(), x))
    }
}

proof fn lemma_without_first_at(s: Seq<u32>, x: u32, i: int)
    requires
        0 <= i < s.len(),
        s[i] == x,
        forall|j: int| 0 <= j < i ==> s[j] != x,
    ensures
        without_first(s, x) == s.remove(i),
    decreases s.len(),
{
    if i == 0 {
        assert(s.drop_first() =~= s.remove(0));
    } else {
        lemma_without_first_at(s.drop_first(), x, i - 1);
        assert(seq![s[0]].add(s.drop_first().remove(i - 1)) =~= s.remove(i));
    }
}

proof fn lemma_without_first_absent(s: Seq<u32>, x: u32)
    requires
        forall|j: int| 0 <= j < s.len() ==> s[j] != x,
    ensures
        without_first(s, x) == s,
    decreases s.len(),
{
    if s.len() > 0 {
        lemma_without_first_absent(s.drop_first(), x);
        assert(seq![s[0]].add(s.drop_first()) =~= s);
    }
}

/// The campaign ids filed under `account` in the index `m` (empty when none are).
pub open spec fn ids_of(m: Map<Address, Seq<u32>>, account: Address) -> Seq<u32> {
    if m.contains_key(account) {
        m[account]
    } else {
        Seq::empty()
    }
}

/// For every account, the ids of the campaigns it owns, in the order it came to own them.
pub struct CreatorIndex {
    lists: HashMap<u64, Vec<u32>>,
}

impl CreatorIndex {
    pub closed spec fn view(&self) -> Map<Address, Seq<u32>> {
        Map::new(|a: Address| self.lists@.contains_key(a), |a: Address| self.lists@[a]@)
    }

    pub fn new() -> (ix: CreatorIndex)
        ensures
            ix@ == Map::<Address, Seq<u32>>::empty(),
    {
        let ix = CreatorIndex { lists: HashMap::new() };
        assert(ix@ =~= Map::<Address, Seq<u32>>::empty());
        ix
    }

    /// The number of campaigns filed under `account`.
    pub fn count(&self, account: Address) -> (n: usize)
        ensures
            n == ids_of(self@, account).len(),
    {
        match self.lists.get(&account) {
            Some(v) => v.len(),
            None => 0,
        }
    }

    /// The `i`-th campaign id filed under `account`.
    pub fn id_at(&self, account: Address, i: usize) -> (id: u32)
        requires
            i < ids_of(self@, account).len(),
        ensures
            id == ids_of(self@, account)[i as int],
    {
        match self.lists.get(&account) {
            Some(v) => v[i],
            None => 0,
        }
    }

    fn take_list(&mut self, account: Address) -> (v: Vec<u32>)
        ensures
            v@ == ids_of(old(self)@, account),
            final(self)@ == old(self)@.remove(account),
    {
        let v = match self.lists.remove(&account) {
            Some(v) => v,
            None => Vec::new(),
        };
        assert(self@ =~= old(self)@.remove(account));
        v
    }

    fn put_list(&mut self, account: Address, v: Vec<u32>)
        ensures
            final(self)@ == old(self)@.insert(account, v@),
    {
        self.lists.insert(account, v);
        assert(self@ =~= old(self)@.insert(account, v@));
    }

    /// Files `id` last under `account`.
    pub fn push(&mut self, account: Address, id: u32)
        ensures
            final(self)@ == old(self)@.insert(account, ids_of(old(self)@, account).push(id)),
    {
        let mut v = self.take_list(account);
        v.push(id);
        self.put_list(account, v);
        assert(self@ =~= old(self)@.insert(account, ids_of(old(self)@, account).push(id)));
    }

    /// Takes the first occurrence of `id` out of the list filed under `account`.
    pub fn remove_first(&mut self, account: Address, id: u32)
        ensures
            final(self)@ == old(self)@.insert(account, without_first(ids_of(old(self)@, account), id)),
    {
        let mut v = self.take_list(account);
        let ghost s = v@;
        let mut i: usize = 0;
        let mut found = false;
        while i < v.len()
            invariant_except_break
                i <= v.len(),
                v@ == s,
                !found,
                forall|j: int| 0 <= j < i ==> s[j] != id,
            ensures
                v@ == s,
                found ==> i < s.len() && s[i as int] == id && forall|j: int| 0 <= j < i ==> s[j] != id,
                !found ==> forall|j: int| 0 <= j < s.len() ==> s[j] != id,
            decreases v.len() - i,
        {
            if v[i] == id {
                found = true;
                break;
            }
            i = i + 1;
        }
        if found {
            proof { lemma_without_first_at(s, id, i as int); }
            v.remove(i);
        } else {
            proof { lemma_without_first_absent(s, id); }
        }
        self.put_list(account, v);
    }
}

} // verus!
