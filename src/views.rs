//! Read-only projections: they change no record and give the numbers the
//! transitions would compute at the same instant.
use crate::errors::CrazySolError;
use crate::incubate_serum::{accrued_yield, project_yield};
use crate::states::{LaboratoryState, ReactionFormula, ReactorState, ScientistState};
use vstd::prelude::*;

verus! {

/// The marginal price of one unit at `supply`: p0 + m * supply.
pub open spec fn marginal_price(f: ReactionFormula, supply: int) -> int {
    f.bonding_curve_p0 + f.bonding_curve_m * supply
}

/// The current marginal unit price, or an overflow error when it does not fit
/// in 64 bits.
pub fn handle_get_pill_potency(laboratory_state: &LaboratoryState, reactor_state: &ReactorState) -> (r:
    Result<u64, CrazySolError>)
    ensures
        r == (if marginal_price(laboratory_state.reaction_formula, reactor_state.pill_supply as int)
            > u64::MAX {
            Err(CrazySolError::Overflow)
        } else {
            Ok(marginal_price(laboratory_state.reaction_formula, reactor_state.pill_supply as int) as u64)
        }),
{
    let p0 = laboratory_state.reaction_formula.bonding_curve_p0 as u128;
    let m = laboratory_state.reaction_formula.bonding_curve_m as u128;
    let slope_part = match m.checked_mul(reactor_state.pill_supply) {
        Some(v) => v,
        None => return Err(CrazySolError::Overflow),
    };
    let price = match p0.checked_add(slope_part) {
        Some(v) => v,
        None => return Err(CrazySolError::Overflow),
    };
    if price > u64::MAX as u128 {
        return Err(CrazySolError::Overflow);
    }
    Ok(price as u64)
}

/// The pending yield a participant would have if it were accrued now, without
/// changing any record: the same number the transitions accrue at that
/// instant.
pub fn handle_get_distillable_output(
    laboratory_state: &LaboratoryState,
    scientist_state: &ScientistState,
    current_ts: i64,
) -> (r: Result<u64, CrazySolError>)
    ensures
        scientist_state.owned_pill == 0 || current_ts <= scientist_state.last_distillation_timestamp
            ==> r == Ok::<u64, CrazySolError>(scientist_state.distillable_yield),
        r == (match accrued_yield(*scientist_state, laboratory_state.reaction_formula, current_ts) {
            Some(y) => Ok(y),
            None => Err(CrazySolError::Overflow),
        }),
{
    project_yield(scientist_state, &laboratory_state.reaction_formula, current_ts)
}} // verus!
