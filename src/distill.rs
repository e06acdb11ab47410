//! The harvest transition.
use crate::constants::VAPORIZATION_PERCENTAGE;
use crate::errors::CrazySolError;
use crate::events::DistillEvent;
use crate::incubate_serum::{accrued_state, accrued_yield, project_yield};
use crate::policy::{checked_tax, tax_of};
use crate::referral::{Payee, Transfer};
use crate::security::{operational_error, verify_laboratory_initialized_and_operational};
use crate::states::{ExperimentState, LaboratoryState, ReactorState, ScientistState};
use vstd::prelude::*;

verus! {

/// Units that decay from a balance of `owned` on a harvest.
pub open spec fn vaporized(owned: int) -> int {
    owned * VAPORIZATION_PERCENTAGE / 100
}

/// The records and payments a committed harvest leaves behind.
pub struct DistillPlan {
    pub scientist: ScientistState,
    pub reactor: ReactorState,
    pub experiment: ExperimentState,
    pub transfers: Seq<Transfer>,
    /// What the harvest takes out of the pending yield, before the tax.
    pub harvested: int,
    pub fee: int,
    pub vaporized: int,
}

/// What a harvest at `now` does when the pool holds `pool_balance` with
/// `pool_floor` of it reserved for storage, or the error that refuses it.
///
/// The pending yield is accrued and must not be zero; what is paid is capped
/// at the pool's balance above its floor. The tax on that amount goes to the
/// fee recipient and the rest to the participant; the pending yield drops by
/// the amount before tax; a fixed share of the participant's units decays.
pub open spec fn distill_plan(
    lab: LaboratoryState,
    reactor: ReactorState,
    exp: ExperimentState,
    sci: ScientistState,
    pool_balance: u64,
    pool_floor: u64,
    now: i64,
) -> Result<DistillPlan, CrazySolError> {
    let y = accrued_yield(sci, lab.reaction_formula, now)->0;
    let available = pool_balance - pool_floor;
    let harvested = if y > available {
        available
    } else {
        y as int
    };
    let fee = tax_of(harvested, lab.containment_tax_bps as int);
    let net = harvested - fee;
    let decay = vaporized(sci.owned_pill as int);
    if operational_error(lab) is Some {
        Err(operational_error(lab)->0)
    } else if accrued_yield(sci, lab.reaction_formula, now) is None {
        Err(CrazySolError::Overflow)
    } else if y == 0 {
        Err(CrazySolError::NoYield)
    } else if pool_balance < pool_floor || harvested * lab.containment_tax_bps > u64::MAX || fee
        > harvested || exp.total_dev_fees_collected + fee > u64::MAX || sci.owned_pill
        * VAPORIZATION_PERCENTAGE > u128::MAX || reactor.pill_supply < decay || sci.earned_sol
        + net > u64::MAX || exp.total_pills_vaporized + decay > u128::MAX
        || exp.total_yield_distilled + net > u64::MAX {
        Err(CrazySolError::Overflow)
    } else {
        let accrued = accrued_state(sci, y, now);
        Ok(
            DistillPlan {
                scientist: ScientistState {
                    distillable_yield: (y - harvested) as u64,
                    last_distillation_timestamp: now,
                    owned_pill: (sci.owned_pill - decay) as u128,
                    earned_sol: (sci.earned_sol + net) as u64,
                    ..accrued
                },
                reactor: ReactorState { pill_supply: (reactor.pill_supply - decay) as u128, ..reactor },
                experiment: ExperimentState {
                    total_dev_fees_collected: (exp.total_dev_fees_collected + fee) as u64,
                    total_pills_vaporized: (exp.total_pills_vaporized + decay) as u128,
                    total_yield_distilled: (exp.total_yield_distilled + net) as u64,
                    ..exp
                },
                transfers: if fee > 0 {
                    seq![
                        Transfer { to: Payee::FeeRecipient, amount: fee as u64 },
                        Transfer { to: Payee::Participant(sci.owner), amount: net as u64 },
                    ]
                } else {
                    seq![Transfer { to: Payee::Participant(sci.owner), amount: net as u64 }]
                },
                harvested,
                fee,
                vaporized: decay,
            },
        )
    }
}

/// When the pool can spare less than the pending yield, the harvest is
/// capped rather than refused: it takes exactly the spare amount out of the
/// pending yield (before tax), pays the tax on it to the fee recipient and
/// the rest to the participant, and still decays the fixed share of the
/// participant's whole unit balance. This holds wherever the counters it
/// raises have room and the tax is at most 100%.
pub proof fn lemma_harvest_capped(
    lab: LaboratoryState,
    reactor: ReactorState,
    exp: ExperimentState,
    sci: ScientistState,
    pool_balance: u64,
    pool_floor: u64,
    now: i64,
)
    requires
        operational_error(lab) is None,
        accrued_yield(sci, lab.reaction_formula, now) is Some,
        pool_floor < pool_balance,
        pool_balance - pool_floor < accrued_yield(sci, lab.reaction_formula, now)->0,
        lab.containment_tax_bps <= 10_000,
        (pool_balance - pool_floor) * lab.containment_tax_bps <= u64::MAX,
        sci.owned_pill <= reactor.pill_supply,
        sci.owned_pill * VAPORIZATION_PERCENTAGE <= u128::MAX,
        exp.total_dev_fees_collected + (pool_balance - pool_floor) <= u64::MAX,
        exp.total_yield_distilled + (pool_balance - pool_floor) <= u64::MAX,
        exp.total_pills_vaporized + sci.owned_pill <= u128::MAX,
        sci.earned_sol + (pool_balance - pool_floor) <= u64::MAX,
    ensures
        ({
            let y = accrued_yield(sci, lab.reaction_formula, now)->0;
            let available = pool_balance - pool_floor;
            let plan = distill_plan(lab, reactor, exp, sci, pool_balance, pool_floor, now);
            let fee = tax_of(available, lab.containment_tax_bps as int);
            let decay = vaporized(sci.owned_pill as int);
            &&& plan is Ok
            &&& plan->Ok_0.harvested == available
            &&& plan->Ok_0.fee == fee
            &&& plan->Ok_0.scientist.distillable_yield == y - available
            &&& plan->Ok_0.scientist.distillable_yield > 0
            &&& plan->Ok_0.vaporized == decay
            &&& plan->Ok_0.scientist.owned_pill == sci.owned_pill - decay
            &&& plan->Ok_0.reactor.pill_supply == reactor.pill_supply - decay
            &&& plan->Ok_0.experiment.total_pills_vaporized == exp.total_pills_vaporized + decay
            &&& total_paid_to(plan->Ok_0.transfers) == available
        }),
{
    let available = pool_balance - pool_floor;
    let bps = lab.containment_tax_bps as int;
    let fee = tax_of(available, bps);
    assert(0 <= fee <= available) by (nonlinear_arith)
        requires
            fee == available * bps / 10_000,
            0 <= bps <= 10_000,
            available > 0,
    {
        assert(available * bps <= available * 10_000);
    }
    assert(vaporized(sci.owned_pill as int) <= sci.owned_pill);
}

/// Sum of the amounts of a harvest's transfers.
pub open spec fn total_paid_to(transfers: Seq<Transfer>) -> int {
    if transfers.len() == 2 {
        transfers[0].amount + transfers[1].amount
    } else if transfers.len() == 1 {
        transfers[0].amount as int
    } else {
        0
    }
}

/// A committed harvest: its event and the payments the host must make out of
/// the pool.
pub struct DistillOutcome {
    pub event: DistillEvent,
    pub transfers: Vec<Transfer>,
}

/// Harvests the pending yield of `scientist_state` at `current_ts`;
/// `pool_balance` is what the pool account holds and `pool_floor` the part of
/// it that must stay for storage. The result is the one `distill_plan`
/// gives; on an error no record changes.
pub fn handle_distill(
    laboratory_state: &LaboratoryState,
    reactor_state: &mut ReactorState,
    experiment_state: &mut ExperimentState,
    scientist_state: &mut ScientistState,
    pool_balance: u64,
    pool_floor: u64,
    current_ts: i64,
) -> (r: Result<DistillOutcome, CrazySolError>)
    ensures
        r is Ok ==> final(reactor_state).pill_supply - old(reactor_state).pill_supply == final(scientist_state).owned_pill - old(scientist_state).owned_pill,
        ({
            let plan = distill_plan(
                *laboratory_state,
                *old(reactor_state),
                *old(experiment_state),
                *old(scientist_state),
                pool_balance,
                pool_floor,
                current_ts,
            );
            &&& plan is Err ==> r == Err::<DistillOutcome, CrazySolError>(plan->Err_0)
                && *final(scientist_state) == *old(scientist_state) && *final(reactor_state)
                == *old(reactor_state) && *final(experiment_state) == *old(experiment_state)
            &&& plan is Ok ==> r is Ok
        }),
        (r matches Ok(out) ==> {
            let plan = distill_plan(
                *laboratory_state,
                *old(reactor_state),
                *old(experiment_state),
                *old(scientist_state),
                pool_balance,
                pool_floor,
                current_ts,
            )->Ok_0;
            &&& *final(scientist_state) == plan.scientist
            &&& *final(reactor_state) == plan.reactor
            &&& *final(experiment_state) == plan.experiment
            &&& out.transfers@ == plan.transfers
            &&& out.event.scientist == old(scientist_state).owner
            &&& out.event.distilled_yield == plan.harvested - plan.fee
            &&& out.event.fee == plan.fee
            &&& out.event.new_pill == final(scientist_state).owned_pill
            &&& out.event.timestamp == current_ts
        }),
{
    let lab = laboratory_state;
    verify_laboratory_initialized_and_operational(lab)?;
    let pending = project_yield(scientist_state, &lab.reaction_formula, current_ts)?;
    if pending == 0 {
        return Err(CrazySolError::NoYield);
    }
    if pool_balance < pool_floor {
        return Err(CrazySolError::Overflow);
    }
    let available = pool_balance - pool_floor;
    let harvested = if pending > available {
        available
    } else {
        pending
    };
    let fee = match checked_tax(harvested, lab.containment_tax_bps) {
        Some(t) => t,
        None => return Err(CrazySolError::Overflow),
    };
    if fee > harvested {
        return Err(CrazySolError::Overflow);
    }
    let net = harvested - fee;
    let dev_fees = match experiment_state.total_dev_fees_collected.checked_add(fee) {
        Some(v) => v,
        None => return Err(CrazySolError::Overflow),
    };
    let decay = match scientist_state.owned_pill.checked_mul(VAPORIZATION_PERCENTAGE as u128) {
        Some(v) => v / 100,
        None => return Err(CrazySolError::Overflow),
    };
    if reactor_state.pill_supply < decay {
        return Err(CrazySolError::Overflow);
    }
    let earned = match scientist_state.earned_sol.checked_add(net) {
        Some(v) => v,
        None => return Err(CrazySolError::Overflow),
    };
    let total_vaporized = match experiment_state.total_pills_vaporized.checked_add(decay) {
        Some(v) => v,
        None => return Err(CrazySolError::Overflow),
    };
    let total_distilled = match experiment_state.total_yield_distilled.checked_add(net) {
        Some(v) => v,
        None => return Err(CrazySolError::Overflow),
    };
    proof {
        assert(decay <= scientist_state.owned_pill);
    }
    scientist_state.distillable_yield = pending - harvested;
    scientist_state.last_distillation_timestamp = current_ts;
    scientist_state.owned_pill = scientist_state.owned_pill - decay;
    scientist_state.earned_sol = earned;
    reactor_state.pill_supply = reactor_state.pill_supply - decay;
    experiment_state.total_dev_fees_collected = dev_fees;
    experiment_state.total_pills_vaporized = total_vaporized;
    experiment_state.total_yield_distilled = total_distilled;
    let mut transfers: Vec<Transfer> = Vec::new();
    if fee > 0 {
        transfers.push(Transfer { to: Payee::FeeRecipient, amount: fee });
    }
    transfers.push(Transfer { to: Payee::Participant(scientist_state.owner), amount: net });
    proof {
        if fee > 0 {
            assert(transfers@ =~= seq![
                Transfer { to: Payee::FeeRecipient, amount: fee },
                Transfer { to: Payee::Participant(scientist_state.owner), amount: net },
            ]);
        } else {
            assert(transfers@ =~= seq![Transfer { to: Payee::Participant(scientist_state.owner), amount: net }]);
        }
    }
    let event = DistillEvent {
        scientist: scientist_state.owner,
        distilled_yield: net,
        new_pill: scientist_state.owned_pill,
        fee,
        timestamp: current_ts,
    };
    Ok(DistillOutcome { event, transfers })
}

} // verus!
