//! Whether a new campaign is worth joining. The decision runs in two stages
//! around two floating-point comparisons made by the caller (the deposit in
//! ether against the configured maximum, and the reward rate against the
//! configured minimum): first the gas reserve, the deposit and the reward
//! rate; then the campaign's timing.
use vstd::prelude::*;
use crate::config::{CampaignInfo, Config, parse_u256_hex};
use crate::uint::U256;

verus! {

/// The reward rate `bountypot / deposit / (commit_num + 1)`, as an exact
/// fraction: numerator and denominator.
pub open spec fn reward_rate(info: CampaignInfo) -> (nat, nat) {
    (info.bountypot@, info.deposit@ * (info.commit_num@ + 1))
}

/// The figures of a campaign's reward rate, handed to the comparison with
/// the configured minimum: the rate is `bountypot / deposit / (commit_num + 1)`.
#[derive(Debug, Clone, Copy)]
pub struct RewardRate {
    pub bountypot: U256,
    /// Never zero.
    pub deposit: u128,
    pub commit_num: U256,
}

/// The fraction a `RewardRate` stands for.
pub open spec fn rate_fraction(q: RewardRate) -> (nat, nat) {
    (q.bountypot@, (q.deposit as nat) * (q.commit_num@ + 1))
}

/// Whether the first stage rejects the campaign: the gas reserve exceeds
/// the balance, or the deposit is zero.
pub open spec fn screened_out(reserve: nat, balance: U256, info: CampaignInfo) -> bool {
    reserve > balance@ || info.deposit@ == 0
}

/// What the first stage needs to be defined: the reserve is a valid
/// hexadecimal amount, and where the deposit is read, it fits in 128 bits.
pub open spec fn screening_defined(config: Config, balance: U256, info: CampaignInfo) -> bool {
    match parse_u256_hex(config.chain.opts.min_gas_reserve@) {
        None => false,
        Some(reserve) => reserve <= balance@ ==> info.deposit@ <= u128::MAX,
    }
}

/// Whether `screening_defined` holds.
pub fn screening_computable(info: &CampaignInfo, config: &Config, balance: &U256) -> (r: bool)
    ensures
        r == screening_defined(*config, *balance, *info),
{
    match U256::from_hex_str(config.chain.opts.min_gas_reserve.as_str()) {
        None => false,
        Some(reserve) => balance.lt(&reserve) || info.deposit.fits_u128(),
    }
}

/// First stage: `None` when the campaign is rejected on the gas reserve or a
/// zero deposit, else the figures of its reward rate, which the caller
/// compares with the configured minimum.
pub fn screen_campaign(info: &CampaignInfo, config: &Config, balance: &U256) -> (r: Option<
    RewardRate,
>)
    requires
        screening_defined(*config, *balance, *info),
    ensures
        r is None <==> screened_out(
            parse_u256_hex(config.chain.opts.min_gas_reserve@)->0,
            *balance,
            *info,
        ),
        r matches Some(q) ==> rate_fraction(q) == reward_rate(*info) && q.deposit > 0
            && q.bountypot == info.bountypot && q.deposit == info.deposit@
            && q.commit_num == info.commit_num,
{
    let reserve = match U256::from_hex_str(config.chain.opts.min_gas_reserve.as_str()) {
        Some(v) => v,
        None => U256::zero(),
    };
    if balance.lt(&reserve) {
        return None;
    }
    let deposit = info.deposit.as_u128();
    if deposit == 0 {
        return None;
    }
    Some(RewardRate { bountypot: info.bountypot, deposit, commit_num: info.commit_num })
}

/// The second stage: the commit phase opens after `block_number`, commits
/// close more than the minimum reveal window before the target, and that
/// window exceeds the largest reveal delay.
pub open spec fn terms_ok(info: CampaignInfo, config: Config, block_number: u64) -> bool {
    &&& info.bnum@ - info.commit_balkline@ > block_number
    &&& info.commit_deadline@ > config.chain.opts.min_reveal_window
    &&& config.chain.opts.min_reveal_window > config.chain.opts.max_reveal_delay
}

/// What the second stage needs to be defined: the commit distance does not
/// exceed the target, and where the window is compared, it is not negative.
pub open spec fn terms_defined(info: CampaignInfo, config: Config, block_number: u64) -> bool {
    &&& info.commit_balkline@ <= info.bnum@
    &&& info.bnum@ - info.commit_balkline@ > block_number ==> config.chain.opts.min_reveal_window
        >= 0
}

/// Whether `terms_defined` holds.
pub fn terms_computable(info: &CampaignInfo, config: &Config, block_number: u64) -> (r: bool)
    ensures
        r == terms_defined(*info, *config, block_number),
{
    if !info.commit_balkline.le(&info.bnum) {
        return false;
    }
    let start = info.bnum.sub(&info.commit_balkline);
    !U256::from_u64(block_number).lt(&start) || config.chain.opts.min_reveal_window >= 0
}

/// Second stage of the decision, taken once the deposit and rate comparisons passed.
pub fn check_campaign_info_terms(info: &CampaignInfo, config: &Config, block_number: u64) -> (r:
    bool)
    requires
        terms_defined(*info, *config, block_number),
    ensures
        r == terms_ok(*info, *config, block_number),
        r == (info.bnum@ - info.commit_balkline@ > block_number && info.commit_deadline@
            > config.chain.opts.min_reveal_window && config.chain.opts.min_reveal_window
            > config.chain.opts.max_reveal_delay),
{
    let opts = &config.chain.opts;
    let start = info.bnum.sub(&info.commit_balkline);
    if !U256::from_u64(block_number).lt(&start) {
        return false;
    }
    let window = U256::from_u64(opts.min_reveal_window as u64);
    window.lt(&info.commit_deadline) && opts.min_reveal_window > opts.max_reveal_delay
}

/// The timing terms, over the figures themselves: the commit phase opens
/// after the current block, commits close more than the minimum reveal
/// window before the target, and that window is longer than the largest
/// reveal delay. Hence a campaign acceptable at a block is acceptable at
/// every earlier block, and no campaign passes while the window does not
/// exceed the delay.
pub proof fn lemma_terms_ok(info: CampaignInfo, config: Config, b: u64, b2: u64)
    ensures
        terms_ok(info, config, b) == (info.bnum@ - info.commit_balkline@ > b
            && info.commit_deadline@ > config.chain.opts.min_reveal_window
            && config.chain.opts.min_reveal_window > config.chain.opts.max_reveal_delay),
        terms_ok(info, config, b) && b2 <= b ==> terms_ok(info, config, b2),
        config.chain.opts.min_reveal_window <= config.chain.opts.max_reveal_delay ==> !terms_ok(
            info,
            config,
            b,
        ),
{
}

/// The largest reveal delay is compared with the window alone: two
/// campaigns alike but for when commits close, both closing more than the
/// window before the target, are judged alike.
pub proof fn lemma_terms_deadline_slack(info: CampaignInfo, other: CampaignInfo, config: Config, b: u64)
    requires
        other.bnum == info.bnum,
        other.commit_balkline == info.commit_balkline,
        other.commit_deadline@ > config.chain.opts.min_reveal_window,
        info.commit_deadline@ > config.chain.opts.min_reveal_window,
    ensures
        terms_ok(info, config, b) == terms_ok(other, config, b),
{
}

} // verus!
