use vstd::prelude::*;

verus! {

/// Smallest accepted deposit, in lamports (0.05 SOL).
pub const MIN_INJECTION: u64 = 50_000_000;

/// Reward-token grant for a deposit made before the launch latch is set.
pub const PCRAZY_INJECTION_REWARDS: u64 = 100_000_000;

/// Reward-token grant for a reinvestment made before the launch latch is set.
pub const PCRAZY_MUTATION_REWARDS: u64 = 50_000_000;

/// Reward-token grant to a referrer for each new recruit before the launch
/// latch is set.
pub const PCRAZY_RECRUITMENT_REWARDS: u64 = 200_000_000;

/// Base reward of the daily streak; the n-th consecutive day pays n times it.
pub const PCRAZY_DAILY_STREAK_BASE_REWARDS: u64 = 10_000_000;

/// Percent of a participant's units that decay on each harvest.
pub const VAPORIZATION_PERCENTAGE: u64 = 10;

/// Upper bound of the protocol tax, in basis points.
pub const MAX_CONTAINMENT_TAX_BPS: u16 = 100;

/// Reference magnitude that the minimum daily yield is a basis-point share of.
pub const MIN_YIELD_REFERENCE: u64 = 100_000;

/// Longest accepted username, in bytes.
pub const MAX_USERNAME_LENGTH: usize = 128;

/// Seed under which a participant's record is derived from its owner.
pub const SCIENTIST_SEED: &'static str = "scientist-state";

/// Shares of a deposit, in percent, paid one hop further up the referral
/// chain per slot.
pub open spec fn research_reward_percentages() -> Seq<u64> {
    seq![5u64, 3u64, 2u64]
}

/// The referral shares as an executable table.
pub fn research_reward_table() -> (r: Vec<u64>)
    ensures
        r@ == research_reward_percentages(),
{
    let r = vec![5u64, 3u64, 2u64];
    proof {
        assert(r@ =~= research_reward_percentages());
    }
    r
}

} // verus!
