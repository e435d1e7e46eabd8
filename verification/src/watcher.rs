//! The main loop's decisions: which campaign to look at next as the
//! contract's campaign count grows, which campaign ids left over from an
//! earlier run to resume first, when too many participations run at once,
//! and the terms of a campaign the service opens itself.
use vstd::prelude::*;
use crate::uint::U256;

verus! {

/// The largest element of a non-empty sequence.
pub open spec fn seq_max(s: Seq<u128>) -> u128
    recommends
        s.len() > 0,
    decreases s.len(),
{
    if s.len() <= 1 {
        s[0]
    } else {
        let m = seq_max(s.drop_last());
        if s.last() > m {
            s.last()
        } else {
            m
        }
    }
}

/// `seq_max` is an element and bounds every element.
pub proof fn lemma_seq_max(s: Seq<u128>)
    requires
        s.len() > 0,
    ensures
        s.contains(seq_max(s)),
        forall|i: int| 0 <= i < s.len() ==> s[i] <= seq_max(s),
    decreases s.len(),
{
    if s.len() > 1 {
        lemma_seq_max(s.drop_last());
        let m = seq_max(s.drop_last());
        let k = choose|k: int| 0 <= k < s.drop_last().len() && s.drop_last()[k] == m;
        assert(s[k] == m);
        if s.last() > m {
            assert(s[s.len() - 1] == s.last());
        }
        assert forall|i: int| 0 <= i < s.len() implies s[i] <= seq_max(s) by {
            if i < s.len() - 1 {
                assert(s[i] == s.drop_last()[i]);
            }
        }
    } else {
        assert(s[0] == seq_max(s));
    }
}

/// The campaign count to start watching from when `ids` were left over:
/// one past the largest of them, or zero when there are none.
pub open spec fn resume_count(ids: Seq<u128>) -> nat {
    if ids.len() == 0 {
        0
    } else {
        (seq_max(ids) + 1) as nat
    }
}

/// What the main loop knows between polls of the campaign count.
pub struct Watcher {
    /// Count of campaigns already seen.
    pub campaign_num: U256,
    /// Campaign ids left over from an earlier run, still to be resumed; the
    /// last one is resumed first.
    pub pending: Vec<u128>,
}

/// What to do after reading the contract's campaign count.
#[derive(Debug, Clone, Copy, PartialEq, Eq, Structural)]
pub enum Poll {
    /// Nothing new and nothing to resume: sleep and poll again.
    Wait,
    /// Look at the campaign with this id (the newest one).
    Examine(u128),
}

/// Whether the newest campaign id can be formed from a count: the count is
/// at least one and fits in 128 bits.
pub open spec fn count_usable(n: nat) -> bool {
    1 <= n <= u128::MAX
}

/// The decision on reading a campaign count `n`, having seen `seen`
/// campaigns, and the count seen after it. With no leftovers: wait when
/// nothing is new, else examine the first campaign not yet seen (each newly
/// created campaign in turn). With leftovers: examine the newest campaign,
/// whose record decides whether a leftover is resumed; the count stays.
pub open spec fn poll_next(seen: nat, pending_empty: bool, n: nat) -> (Poll, nat) {
    if pending_empty {
        if n <= seen {
            (Poll::Wait, seen)
        } else {
            (Poll::Examine(seen as u128), seen + 1)
        }
    } else {
        (Poll::Examine((n - 1) as u128), seen)
    }
}

/// Whether the decision on count `n` is defined: the id examined fits in 128 bits.
pub open spec fn poll_defined(seen: nat, pending_empty: bool, n: nat) -> bool {
    if pending_empty {
        n <= seen || seen <= u128::MAX
    } else {
        count_usable(n)
    }
}

impl Watcher {
    /// Starts watching with the ids left over from an earlier run.
    pub fn new(ids: Vec<u128>) -> (r: Watcher)
        requires
            ids@.len() > 0 ==> seq_max(ids@) < u128::MAX,
        ensures
            r.campaign_num@ == resume_count(ids@),
            r.pending@ == ids@,
    {
        let mut num = U256::zero();
        if ids.len() > 0 {
            let mut max: u128 = 0;
            let mut i: usize = 0;
            while i < ids.len()
                invariant
                    0 < ids.len(),
                    i <= ids.len(),
                    i == 0 ==> max == 0,
                    i > 0 ==> max == seq_max(ids@.take(i as int)),
                decreases ids.len() - i,
            {
                proof {
                    let t = ids@.take(i + 1);
                    assert(t.drop_last() == ids@.take(i as int));
                    assert(t.last() == ids@[i as int]);
                }
                if i == 0 || ids[i] > max {
                    max = ids[i];
                }
                i = i + 1;
            }
            assert(ids@.take(ids.len() as int) == ids@);
            num = U256::from_u128(max + 1);
        }
        Watcher { campaign_num: num, pending: ids }
    }

    /// Whether `on_count` is defined on count `n`.
    pub fn can_poll(&self, n: &U256) -> (r: bool)
        ensures
            r == poll_defined(self.campaign_num@, self.pending@.len() == 0, n@),
    {
        if self.pending.len() == 0 {
            n.le(&self.campaign_num) || self.campaign_num.fits_u128()
        } else {
            !n.is_zero() && n.fits_u128()
        }
    }

    /// Decides what to do on reading campaign count `n`.
    pub fn on_count(&mut self, n: &U256) -> (r: Poll)
        requires
            poll_defined(old(self).campaign_num@, old(self).pending@.len() == 0, n@),
        ensures
            (r, final(self).campaign_num@) == poll_next(
                old(self).campaign_num@,
                old(self).pending@.len() == 0,
                n@,
            ),
            final(self).pending@ == old(self).pending@,
    {
        if self.pending.len() == 0 {
            if n.le(&self.campaign_num) {
                return Poll::Wait;
            }
            let id = self.campaign_num.as_u128();
            self.campaign_num = if id < u128::MAX {
                U256::from_u128(id + 1)
            } else {
                U256 { w0: 0, w1: 0, w2: 1, w3: 0 }
            };
            Poll::Examine(id)
        } else {
            Poll::Examine(n.as_u128() - 1)
        }
    }

    /// The id to work on when campaign `fresh` was accepted: the last
    /// leftover id if any remain (removed from the list), else `fresh`;
    /// and whether it is `fresh`, which the caller then records as started.
    pub fn claim(&mut self, fresh: u128) -> (r: (u128, bool))
        ensures
            old(self).pending@.len() == 0 ==> r == (fresh, true) && final(self).pending@
                == old(self).pending@,
            old(self).pending@.len() > 0 ==> r == (old(self).pending@.last(), false)
                && final(self).pending@ == old(self).pending@.drop_last(),
            final(self).campaign_num == old(self).campaign_num,
    {
        match self.pending.pop() {
            None => (fresh, true),
            Some(id) => (id, false),
        }
    }
}

/// Whether as many participations run as allowed: `None` when the number
/// running does not fit the configured limit's type.
pub fn at_capacity(max_campaigns: i32, running: usize) -> (r: Option<bool>)
    ensures
        running > i32::MAX ==> r is None,
        running <= i32::MAX ==> r == Some(max_campaigns <= running),
{
    if running > 0x7fff_ffffusize {
        None
    } else {
        Some(max_campaigns as i64 <= running as i64)
    }
}

/// The count of campaigns seen never goes down, and goes up by at most one.
pub proof fn lemma_poll_monotone(seen: nat, pending_empty: bool, n: nat)
    ensures
        seen <= poll_next(seen, pending_empty, n).1 <= seen + 1,
{
}

/// With nothing to resume, a poll waits exactly when no campaign is new,
/// and otherwise examines the first campaign not yet seen and counts it seen.
pub proof fn lemma_poll_examines_new(seen: nat, n: nat)
    ensures
        n <= seen ==> poll_next(seen, true, n) == (Poll::Wait, seen),
        seen < n ==> poll_next(seen, true, n) == (Poll::Examine(seen as u128), seen + 1),
{
}

/// While leftover ids remain, every poll examines the newest campaign, and
/// the count of campaigns seen stays where the leftovers put it.
pub proof fn lemma_resume_before_new(seen: nat, n: nat)
    requires
        count_usable(n),
    ensures
        poll_next(seen, false, n) == (Poll::Examine((n - 1) as u128), seen),
{
}

/// The ids examined over polls that read the counts `ns`, with nothing to
/// resume, and the count seen at the end.
pub open spec fn poll_run(seen: nat, ns: Seq<nat>) -> (Seq<u128>, nat)
    decreases ns.len(),
{
    if ns.len() == 0 {
        (Seq::empty(), seen)
    } else {
        let (p, seen2) = poll_next(seen, true, ns[0]);
        let (ids, last) = poll_run(seen2, ns.drop_first());
        match p {
            Poll::Wait => (ids, last),
            Poll::Examine(id) => (seq![id] + ids, last),
        }
    }
}

/// No new campaign is skipped: with nothing to resume, the ids examined
/// over any run of polls are exactly the ids from the count first seen up to
/// the count seen at the end, each once and in order; the count seen never
/// passes the largest count read.
pub proof fn lemma_poll_run_covers(seen: nat, ns: Seq<nat>)
    requires
        seen <= u128::MAX + 1,
        forall|k: int| 0 <= k < ns.len() ==> #[trigger] ns[k] <= u128::MAX + 1,
    ensures
        seen <= poll_run(seen, ns).1 <= u128::MAX + 1,
        poll_run(seen, ns).0.len() == poll_run(seen, ns).1 - seen,
        forall|k: int|
            0 <= k < poll_run(seen, ns).0.len() ==> #[trigger] poll_run(seen, ns).0[k] == seen + k,
        poll_run(seen, ns).1 == seen || exists|j: int|
            0 <= j < ns.len() && poll_run(seen, ns).1 <= #[trigger] ns[j],
    decreases ns.len(),
{
    if ns.len() > 0 {
        let (p, seen2) = poll_next(seen, true, ns[0]);
        let rest = ns.drop_first();
        assert forall|k: int| 0 <= k < rest.len() implies #[trigger] rest[k] <= u128::MAX + 1 by {
            assert(rest[k] == ns[k + 1]);
        }
        lemma_poll_run_covers(seen2, rest);
        let (ids, last) = poll_run(seen2, rest);
        if last != seen2 {
            let j = choose|j: int| 0 <= j < rest.len() && last <= #[trigger] rest[j];
            assert(ns[j + 1] == rest[j]);
        } else if seen2 != seen {
            assert(last <= ns[0]);
        }
        match p {
            Poll::Wait => {},
            Poll::Examine(id) => {
                assert forall|k: int| 0 <= k < (seq![id] + ids).len() implies #[trigger] (seq![id]
                    + ids)[k] == seen + k by {
                    if k > 0 {
                        assert((seq![id] + ids)[k] == ids[k - 1]);
                    }
                }
            },
        }
    }
}

/// The terms of a campaign the service opens itself.
pub struct NewCampaignData {
    pub bnum: U256,
    pub deposit: U256,
    pub commit_balkline: U256,
    pub commit_deadline: U256,
}

/// A campaign whose target is 20 blocks ahead, whose commits run from 16 to
/// 8 blocks before it, with a deposit of one ether (10^18 wei).
pub fn default_new_campaign(block_number: u64) -> (r: NewCampaignData)
    requires
        block_number + 20 <= u64::MAX,
    ensures
        r.bnum@ == block_number + 20,
        r.commit_balkline@ == 16,
        r.commit_deadline@ == 8,
        r.deposit@ == 1_000_000_000_000_000_000,
{
    NewCampaignData {
        bnum: U256::from_u64(block_number + 20),
        deposit: U256::from_u128(1_000_000_000_000_000_000),
        commit_balkline: U256::from_u128(16),
        commit_deadline: U256::from_u128(8),
    }
}

/// Whether the chain id a node reports, written in decimal, is the configured one.
pub fn chain_id_matches(chain_id: &U256, configured: &str) -> (r: bool)
    ensures
        r == (crate::text::decimal(chain_id@) == configured@),
{
    let mut v: Vec<char> = Vec::new();
    crate::uint::push_decimal_u256(&mut v, chain_id);
    assert(v@ == crate::text::decimal(chain_id@));
    crate::text::eq_str(&v, configured)
}

} // verus!
