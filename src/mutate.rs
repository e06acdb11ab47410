//! The reinvest transition.
use crate::constants::PCRAZY_MUTATION_REWARDS;
use crate::curve::{compute_rate_of_centrifugation, curve_radicand, units_for};
use crate::errors::CrazySolError;
use crate::events::MutateEvent;
use crate::incubate_serum::{accrued_state, accrued_yield, project_yield};
use crate::policy::{bonus_fits, capped, capped_grant, checked_with_bonus, with_bonus};
use crate::security::{operational_error, verify_laboratory_initialized_and_operational};
use crate::states::{ExperimentState, LaboratoryState, ReactorState, ScientistState};
use crate::wide::wide_limit;
use vstd::prelude::*;

verus! {

/// The records a committed reinvestment leaves behind.
pub struct MutatePlan {
    pub scientist: ScientistState,
    pub reactor: ReactorState,
    pub experiment: ExperimentState,
    pub reinvested: int,
    pub minted: int,
}

/// What a reinvestment at `now` does, or the error that refuses it: the
/// accrued pending yield, which must not be zero, buys units on the curve as
/// a deposit would, with the first-reinvest bonus; the pre-launch grant is
/// capped at the pool's reward tokens; the pending yield is cleared.
pub open spec fn mutate_plan(
    lab: LaboratoryState,
    reactor: ReactorState,
    exp: ExperimentState,
    sci: ScientistState,
    now: i64,
) -> Result<MutatePlan, CrazySolError> {
    let f = lab.reaction_formula;
    let y = accrued_yield(sci, f, now)->0;
    let supply = reactor.pill_supply as int;
    let p0 = f.bonding_curve_p0 as int;
    let m = f.bonding_curve_m as int;
    let units = units_for(supply, y as int, p0, m);
    let owed = !sci.is_first_mutation_done;
    let minted = with_bonus(units, f.first_mutation_bonus as int, owed);
    let grant = if lab.innoculation_happened {
        0
    } else {
        capped(PCRAZY_MUTATION_REWARDS as int, reactor.owned_pcrazy as int)
    };
    if operational_error(lab) is Some {
        Err(operational_error(lab)->0)
    } else if accrued_yield(sci, f, now) is None {
        Err(CrazySolError::Overflow)
    } else if y == 0 {
        Err(CrazySolError::NoYield)
    } else if exp.total_mutations_performed + y > u64::MAX || m == 0 || curve_radicand(
        supply,
        y as int,
        p0,
        m,
    ) >= wide_limit() || !bonus_fits(units, f.first_mutation_bonus as int, owed)
        || sci.owned_pcrazy + grant > u64::MAX || sci.owned_pill + minted > u128::MAX || supply
        + minted > u128::MAX {
        Err(CrazySolError::Overflow)
    } else {
        let accrued = accrued_state(sci, y, now);
        Ok(
            MutatePlan {
                scientist: ScientistState {
                    distillable_yield: 0,
                    last_distillation_timestamp: now,
                    owned_pill: (sci.owned_pill + minted) as u128,
                    owned_pcrazy: (sci.owned_pcrazy + grant) as u64,
                    is_first_mutation_done: true,
                    ..accrued
                },
                reactor: ReactorState {
                    pill_supply: (supply + minted) as u128,
                    owned_pcrazy: (reactor.owned_pcrazy - grant) as u64,
                    ..reactor
                },
                experiment: ExperimentState {
                    total_mutations_performed: (exp.total_mutations_performed + y) as u64,
                    ..exp
                },
                reinvested: y as int,
                minted,
            },
        )
    }
}

/// Reinvests the pending yield of `scientist_state` at `current_ts`. The
/// result is the one `mutate_plan` gives; on an error no record changes.
pub fn handle_mutate(
    laboratory_state: &LaboratoryState,
    reactor_state: &mut ReactorState,
    experiment_state: &mut ExperimentState,
    scientist_state: &mut ScientistState,
    current_ts: i64,
) -> (r: Result<MutateEvent, CrazySolError>)
    ensures
        r is Ok ==> final(reactor_state).pill_supply - old(reactor_state).pill_supply == final(scientist_state).owned_pill - old(scientist_state).owned_pill,
        ({
            let plan = mutate_plan(
                *laboratory_state,
                *old(reactor_state),
                *old(experiment_state),
                *old(scientist_state),
                current_ts,
            );
            &&& plan is Err ==> r == Err::<MutateEvent, CrazySolError>(plan->Err_0)
                && *final(scientist_state) == *old(scientist_state) && *final(reactor_state)
                == *old(reactor_state) && *final(experiment_state) == *old(experiment_state)
            &&& plan is Ok ==> r is Ok
        }),
        (r matches Ok(event) ==> {
            let plan = mutate_plan(
                *laboratory_state,
                *old(reactor_state),
                *old(experiment_state),
                *old(scientist_state),
                current_ts,
            )->Ok_0;
            &&& *final(scientist_state) == plan.scientist
            &&& *final(reactor_state) == plan.reactor
            &&& *final(experiment_state) == plan.experiment
            &&& event.scientist == old(scientist_state).owner
            &&& event.mutated_yield == plan.reinvested
            &&& event.new_pill == plan.minted
            &&& event.total_owned_pill == final(scientist_state).owned_pill
            &&& event.total_owned_pcrazy == final(scientist_state).owned_pcrazy
            &&& event.timestamp == current_ts
        }),
{
    let lab = laboratory_state;
    let f = lab.reaction_formula;
    verify_laboratory_initialized_and_operational(lab)?;
    let pending = project_yield(scientist_state, &lab.reaction_formula, current_ts)?;
    if pending == 0 {
        return Err(CrazySolError::NoYield);
    }
    let mutations = match experiment_state.total_mutations_performed.checked_add(pending) {
        Some(v) => v,
        None => return Err(CrazySolError::Overflow),
    };
    if f.bonding_curve_m == 0 {
        return Err(CrazySolError::Overflow);
    }
    let units = match compute_rate_of_centrifugation(
        reactor_state.pill_supply,
        pending as u128,
        f.bonding_curve_p0,
        f.bonding_curve_m,
    ) {
        Some(u) => u,
        None => return Err(CrazySolError::Overflow),
    };
    let minted = match checked_with_bonus(
        units,
        f.first_mutation_bonus,
        !scientist_state.is_first_mutation_done,
    ) {
        Some(v) => v,
        None => return Err(CrazySolError::Overflow),
    };
    let grant = if lab.innoculation_happened {
        0
    } else {
        capped_grant(PCRAZY_MUTATION_REWARDS, reactor_state.owned_pcrazy)
    };
    let owned_pcrazy = match scientist_state.owned_pcrazy.checked_add(grant) {
        Some(v) => v,
        None => return Err(CrazySolError::Overflow),
    };
    let owned_pill = match scientist_state.owned_pill.checked_add(minted) {
        Some(v) => v,
        None => return Err(CrazySolError::Overflow),
    };
    let supply = match reactor_state.pill_supply.checked_add(minted) {
        Some(v) => v,
        None => return Err(CrazySolError::Overflow),
    };
    experiment_state.total_mutations_performed = mutations;
    scientist_state.is_first_mutation_done = true;
    scientist_state.owned_pcrazy = owned_pcrazy;
    scientist_state.distillable_yield = 0;
    scientist_state.owned_pill = owned_pill;
    scientist_state.last_distillation_timestamp = current_ts;
    reactor_state.owned_pcrazy = reactor_state.owned_pcrazy - grant;
    reactor_state.pill_supply = supply;
    Ok(
        MutateEvent {
            scientist: scientist_state.owner,
            mutated_yield: pending,
            new_pill: minted,
            total_owned_pill: owned_pill,
            total_owned_pcrazy: owned_pcrazy,
            timestamp: current_ts,
        },
    )
}

} // verus!
