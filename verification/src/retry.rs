//! When polling the chain gives up: retries of block and nonce reads, the
//! wait for a transaction receipt, and the wait for the next block.
use vstd::prelude::*;

verus! {

/// Whether a read that failed on attempt `attempt` (counting from 1) is
/// abandoned: when the limit `times` is reached, or when `times` is zero.
/// With no limit it never is.
pub open spec fn gives_up(times: Option<u64>, attempt: u64) -> bool {
    times == Some(attempt) || times == Some(0u64)
}

/// A retry counter for a read of the chain that may fail.
pub struct Retry {
    pub times: Option<u64>,
    /// The attempt being made, from 1.
    pub attempt: u64,
}

impl Retry {
    /// A counter at the first attempt.
    pub fn new(times: Option<u64>) -> (r: Retry)
        ensures
            r.times == times,
            r.attempt == 1,
    {
        Retry { times, attempt: 1 }
    }

    /// Records a failed attempt: `true` when the read is abandoned, else the
    /// counter moves to the next attempt.
    pub fn failed(&mut self) -> (give_up: bool)
        requires
            !gives_up(old(self).times, old(self).attempt) ==> old(self).attempt < u64::MAX,
        ensures
            give_up == gives_up(old(self).times, old(self).attempt),
            old(self).times is None ==> !give_up,
            old(self).times == Some(0u64) ==> give_up,
            old(self).times matches Some(t) ==> (t > 0 ==> give_up == (old(self).attempt == t)),
            final(self).times == old(self).times,
            give_up ==> final(self).attempt == old(self).attempt,
            !give_up ==> final(self).attempt == old(self).attempt + 1,
    {
        let give_up = match self.times {
            Some(t) => t == self.attempt || t == 0,
            None => false,
        };
        if !give_up {
            self.attempt = self.attempt + 1;
        }
        give_up
    }
}

/// With a limit of `t` attempts, counting from the first, the read is
/// abandoned at attempt `t` and not before.
pub proof fn lemma_retry_bound(t: u64, attempt: u64)
    requires
        1 <= attempt <= t,
    ensures
        gives_up(Some(t), attempt) <==> attempt == t,
{
}

/// A read without a limit is retried for ever; a limit of zero abandons it
/// at the first failure; a limit of `t` abandons it at attempt `t` and at no
/// other.
pub proof fn lemma_retry_limits(attempt: u64, t: u64)
    ensures
        !gives_up(None, attempt),
        gives_up(Some(0u64), attempt),
        t > 0 ==> (gives_up(Some(t), attempt) <==> attempt == t),
{
}

/// The wait for a transaction receipt: `times` lookups at most.
pub struct ReceiptWait {
    pub times: u64,
    /// Lookups left.
    pub retry: u64,
}

/// What to do after a receipt lookup.
#[derive(Debug, Clone, Copy, PartialEq, Eq, Structural)]
pub enum ReceiptStep {
    /// The receipt came, after this many lookups.
    Found(u64),
    /// Sleep, then look again.
    Again,
    /// Give up; report a wait of zero lookups.
    GiveUp,
}

impl ReceiptWait {
    /// A wait of at most `times` lookups.
    pub fn new(times: u64) -> (r: ReceiptWait)
        ensures
            r.times == times,
            r.retry == times,
    {
        ReceiptWait { times, retry: times }
    }

    /// Takes the result of a lookup.
    pub fn step(&mut self, found: bool) -> (r: ReceiptStep)
        requires
            old(self).retry <= old(self).times,
            found ==> old(self).times < u64::MAX,
            !found ==> old(self).retry > 0,
        ensures
            final(self).times == old(self).times,
            found ==> r == ReceiptStep::Found((old(self).times + 1 - old(self).retry) as u64)
                && final(self).retry == old(self).retry,
            !found ==> final(self).retry == old(self).retry - 1 && (r == (if final(self).retry == 0 {
                ReceiptStep::GiveUp
            } else {
                ReceiptStep::Again
            })),
    {
        if found {
            ReceiptStep::Found(self.times + 1 - self.retry)
        } else {
            self.retry = self.retry - 1;
            if self.retry == 0 {
                ReceiptStep::GiveUp
            } else {
                ReceiptStep::Again
            }
        }
    }
}

/// A receipt found on the `k`-th lookup reports a wait of `k`.
pub proof fn lemma_receipt_wait_counts(times: u64, retry: u64)
    requires
        1 <= retry <= times < u64::MAX,
    ensures
        1 <= times + 1 - retry <= times,
{
}

/// What to do while waiting for the next block.
#[derive(Debug, Clone, Copy, PartialEq, Eq, Structural)]
pub enum BlockWait {
    /// The height could not be read: stop waiting at once.
    Stop,
    /// A newer block is there: sleep once more, then stop.
    SleepThenStop,
    /// No newer block yet: sleep, then read again.
    SleepThenPoll,
}

/// The decision after reading the height `current`, having started at `initial`.
pub fn wait_blocks_step(initial: u64, current: Option<u64>) -> (r: BlockWait)
    ensures
        current is None ==> r == BlockWait::Stop,
        current matches Some(c) ==> r == (if c > initial {
            BlockWait::SleepThenStop
        } else {
            BlockWait::SleepThenPoll
        }),
{
    match current {
        None => BlockWait::Stop,
        Some(c) => if c > initial {
            BlockWait::SleepThenStop
        } else {
            BlockWait::SleepThenPoll
        },
    }
}

} // verus!
