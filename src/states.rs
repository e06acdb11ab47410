//! The records the engine reads and writes.
use crate::address::Address;
use vstd::prelude::*;

verus! {

/// Curve and yield parameters of the laboratory.
#[derive(Clone, Copy, Debug, PartialEq, Eq, Structural)]
pub struct ReactionFormula {
    /// Slope `m` of the price line; zero is refused before the curve is used.
    pub bonding_curve_m: u8,
    /// Intercept `p0` of the price line.
    pub bonding_curve_p0: u32,
    /// Base yield per unit per second.
    pub reward_rate_per_pill: u64,
    /// Guaranteed daily yield, in basis points of a fixed reference magnitude.
    pub min_daily_yield_bps: u64,
    /// Bonus on the units of a participant's first deposit, in percent.
    pub first_injection_bonus: u128,
    /// Bonus on the units of a participant's first reinvestment, in percent.
    pub first_mutation_bonus: u128,
}

impl ReactionFormula {
    /// The formula a freshly set up laboratory starts with.
    pub fn canonical() -> (r: ReactionFormula)
        ensures
            r.bonding_curve_m == 30,
            r.bonding_curve_p0 == 100_000,
            r.reward_rate_per_pill == 2_222,
            r.min_daily_yield_bps == 800,
            r.first_injection_bonus == 10,
            r.first_mutation_bonus == 15,
    {
        ReactionFormula {
            bonding_curve_m: 30,
            bonding_curve_p0: 100_000,
            reward_rate_per_pill: 2_222,
            min_daily_yield_bps: 800,
            first_injection_bonus: 10,
            first_mutation_bonus: 15,
        }
    }
}

/// The singleton configuration.
#[derive(Clone, Copy, Debug)]
pub struct LaboratoryState {
    pub director: Address,
    pub big_pharma: Address,
    pub containment_tax_bps: u16,
    pub is_initialized: bool,
    pub emergency_lockdown: bool,
    /// The launch latch: once set it is never cleared.
    pub innoculation_happened: bool,
    pub reaction_formula: ReactionFormula,
}

/// The singleton pool.
#[derive(Clone, Copy, Debug)]
pub struct ReactorState {
    pub sol_reserves: u64,
    /// Reward tokens left to distribute.
    pub owned_pcrazy: u64,
    /// Units in circulation.
    pub pill_supply: u128,
    pub external_reactor: Address,
}

/// Aggregate counters; they only grow.
#[derive(Clone, Copy, Debug, PartialEq, Eq, Structural)]
pub struct ExperimentState {
    pub total_dev_fees_collected: u64,
    pub total_pills_vaporized: u128,
    pub total_research_fees_collected: u64,
    pub total_yield_distilled: u64,
    pub total_mutations_performed: u64,
    pub total_sol_injected: u64,
    pub total_scientists: u64,
    pub total_scientists_recruited: u64,
}

/// One participant's record.
#[derive(Clone, Debug)]
pub struct ScientistState {
    pub owner: Address,
    pub username: String,
    pub recruiter: Option<Address>,
    /// Units held.
    pub owned_pill: u128,
    /// Reward tokens held.
    pub owned_pcrazy: u64,
    pub is_first_injection_done: bool,
    pub is_first_mutation_done: bool,
    pub sol_injected: u64,
    pub last_streak_timestamp: i64,
    pub current_streak: u32,
    /// Checkpoint of the yield accrual.
    pub last_distillation_timestamp: i64,
    /// Yield accrued and not yet harvested or reinvested.
    pub distillable_yield: u64,
    /// Direct recruits.
    pub test_subjects_count: u32,
    /// Second-tier recruits.
    pub specimens_count: u32,
    /// Third-tier recruits.
    pub samples_count: u32,
    pub earned_sol: u64,
    pub earned_sol_from_research: u64,
}

} // verus!
