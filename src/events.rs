//! The result record each transition hands to the notification sink.
use crate::address::Address;
use crate::states::ReactionFormula;
use vstd::prelude::*;

verus! {

#[derive(Clone, Copy, Debug)]
pub struct InjectEvent {
    pub scientist: Address,
    pub amount: u64,
    pub new_pill: u128,
    pub total_owned_pill: u128,
    pub total_owned_pcrazy: u64,
    pub timestamp: i64,
}

#[derive(Clone, Copy, Debug)]
pub struct InnoculateEvent {
    pub innoculation_happened: bool,
    pub timestamp: i64,
}

#[derive(Clone, Copy, Debug)]
pub struct DistillEvent {
    pub scientist: Address,
    pub distilled_yield: u64,
    pub new_pill: u128,
    pub fee: u64,
    pub timestamp: i64,
}

#[derive(Clone, Copy, Debug)]
pub struct MutateEvent {
    pub scientist: Address,
    pub mutated_yield: u64,
    pub new_pill: u128,
    pub total_owned_pill: u128,
    pub total_owned_pcrazy: u64,
    pub timestamp: i64,
}

#[derive(Clone, Copy, Debug)]
pub struct IncubationPeriodEvent {
    pub scientist: Address,
    pub reward: u64,
    pub current_streak: u32,
    pub total_owned_pcrazy: u64,
    pub new_timestamp: i64,
}

#[derive(Clone, Copy, Debug)]
pub struct GiveSomePcrazyEvent {
    pub scientist: Address,
    pub amount: u64,
    pub new_scientist_pcrazy: u64,
    pub new_available_pcrazy_amount: u64,
}

#[derive(Clone, Copy, Debug)]
pub struct DepositFromExternalReactorEvent {
    pub amount: u64,
    pub timestamp: i64,
}

#[derive(Clone, Copy, Debug)]
pub struct IncreasepCRAZYLiquidityEvent {
    pub previous_available_pcrazy: u64,
    pub new_available_pcrazy: u64,
}

#[derive(Clone, Copy, Debug)]
pub struct InitializeEvent {
    pub director: Address,
    pub big_pharma: Address,
    pub containment_tax_bps: u16,
    pub owned_pcrazy: u64,
    pub external_reactor: Address,
    pub reaction_formula: ReactionFormula,
}

#[derive(Clone, Copy, Debug)]
pub struct RegisterScientistEvent {
    pub scientist: Address,
    pub recruiter: Option<Address>,
    pub recruiter_reward: Option<u64>,
}

#[derive(Clone, Copy, Debug)]
pub struct SwitchEmergencyLockdownEvent {
    pub is_emergency_lockdown: bool,
}

#[derive(Clone, Copy, Debug)]
pub struct ReplaceDirectorEvent {
    pub old_director: Address,
    pub new_director: Address,
}

#[derive(Clone, Copy, Debug)]
pub struct UpdateBigPharmaEvent {
    pub old_big_pharma: Address,
    pub new_big_pharma: Address,
}

#[derive(Clone, Copy, Debug)]
pub struct UpdateContainmentTaxBpsEvent {
    pub previous_containment_tax_bps: u16,
    pub new_containment_tax_bps: u16,
}

#[derive(Clone, Copy, Debug)]
pub struct UpdateRewardRatePerPillEvent {
    pub old_reward_rate_per_pill: u64,
    pub new_reward_rate_per_pill: u64,
}

#[derive(Clone, Copy, Debug)]
pub struct UpdateReactionFormulaEvent {
    pub new_reaction_formula: ReactionFormula,
}

} // verus!
