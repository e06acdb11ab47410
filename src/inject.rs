//! The deposit transition.
use crate::address::Address;
use crate::constants::{MIN_INJECTION, PCRAZY_INJECTION_REWARDS};
use crate::curve::{compute_rate_of_centrifugation, curve_radicand, units_for};
use crate::errors::CrazySolError;
use crate::events::InjectEvent;
use crate::incubate_serum::{accrued_state, accrued_yield, project_yield};
use crate::policy::{
    bonus_fits, capped, capped_grant, checked_tax, checked_with_bonus, tax_of, with_bonus,
};
use crate::referral::{
    apply_credits, research_routing, route_research_rewards, total_paid, Payee, ReferralRecord, RouteState,
    Transfer,
};
use crate::security::{operational_error, verify_laboratory_initialized_and_operational};
use crate::states::{ExperimentState, LaboratoryState, ReactorState, ScientistState};
use crate::wide::wide_limit;
use vstd::prelude::*;

verus! {

/// The records and payments a committed transition leaves behind.
pub struct InjectPlan {
    pub scientist: ScientistState,
    pub reactor: ReactorState,
    pub experiment: ExperimentState,
    pub records: Seq<ReferralRecord>,
    pub transfers: Seq<Transfer>,
    pub minted: int,
}

/// The fee transfer, present only when the fee is not zero.
pub open spec fn fee_transfers(fee: int) -> Seq<Transfer> {
    if fee > 0 {
        seq![Transfer { to: Payee::FeeRecipient, amount: fee as u64 }]
    } else {
        seq![]
    }
}

/// The transfer to the external sink, present only when something is left.
pub open spec fn sink_transfers(net: int) -> Seq<Transfer> {
    if net > 0 {
        seq![Transfer { to: Payee::ExternalReactor, amount: net as u64 }]
    } else {
        seq![]
    }
}

/// What a deposit of `deposit` at `now` does, or the error that refuses it.
///
/// In order: the guards and the minimum; yield accrual; the protocol tax to
/// the fee recipient; the referral split of what is left; the rest to the
/// external sink and through the curve, with the first-deposit bonus; the
/// pre-launch grant, capped at the pool's reward tokens; the counters.
pub open spec fn inject_plan(
    lab: LaboratoryState,
    reactor: ReactorState,
    exp: ExperimentState,
    sci: ScientistState,
    records: Seq<ReferralRecord>,
    program: Seq<u8>,
    deposit: u64,
    now: i64,
) -> Result<InjectPlan, CrazySolError> {
    let f = lab.reaction_formula;
    let fee = tax_of(deposit as int, lab.containment_tax_bps as int);
    let remaining = deposit - fee;
    let routing = research_routing(
        program,
        remaining,
        sci.recruiter,
        records,
        exp.total_research_fees_collected as int,
    );
    if operational_error(lab) is Some {
        Err(operational_error(lab)->0)
    } else if deposit < MIN_INJECTION {
        Err(CrazySolError::InjectionTooSmall)
    } else if accrued_yield(sci, f, now) is None {
        Err(CrazySolError::Overflow)
    } else if deposit * lab.containment_tax_bps > u64::MAX || fee > deposit
        || exp.total_dev_fees_collected + fee > u64::MAX {
        Err(CrazySolError::Overflow)
    } else if routing is Err {
        Err(routing->Err_0)
    } else {
        let rs = routing->Ok_0;
        let net = remaining - total_paid(rs.paid);
        let supply = reactor.pill_supply as int;
        let p0 = f.bonding_curve_p0 as int;
        let m = f.bonding_curve_m as int;
        let units = units_for(supply, net, p0, m);
        let owed = !sci.is_first_injection_done;
        let minted = with_bonus(units, f.first_injection_bonus as int, owed);
        let grant = if lab.innoculation_happened {
            0
        } else {
            capped(PCRAZY_INJECTION_REWARDS as int, reactor.owned_pcrazy as int)
        };
        if m == 0 || curve_radicand(supply, net, p0, m) >= wide_limit() {
            Err(CrazySolError::Overflow)
        } else if !bonus_fits(units, f.first_injection_bonus as int, owed) {
            Err(CrazySolError::Overflow)
        } else if sci.owned_pill + minted > u128::MAX || supply + minted > u128::MAX
            || sci.sol_injected + deposit > u64::MAX || sci.owned_pcrazy + grant > u64::MAX
            || exp.total_sol_injected + deposit > u64::MAX {
            Err(CrazySolError::Overflow)
        } else {
            let accrued = accrued_state(sci, accrued_yield(sci, f, now)->0, now);
            Ok(
                InjectPlan {
                    scientist: ScientistState {
                        owned_pill: (sci.owned_pill + minted) as u128,
                        owned_pcrazy: (sci.owned_pcrazy + grant) as u64,
                        is_first_injection_done: true,
                        sol_injected: (sci.sol_injected + deposit) as u64,
                        last_distillation_timestamp: now,
                        ..accrued
                    },
                    reactor: ReactorState {
                        pill_supply: (supply + minted) as u128,
                        owned_pcrazy: (reactor.owned_pcrazy - grant) as u64,
                        ..reactor
                    },
                    experiment: ExperimentState {
                        total_dev_fees_collected: (exp.total_dev_fees_collected + fee) as u64,
                        total_research_fees_collected: rs.fees as u64,
                        total_sol_injected: (exp.total_sol_injected + deposit) as u64,
                        ..exp
                    },
                    records: rs.records,
                    transfers: fee_transfers(fee) + rs.paid + sink_transfers(net),
                    minted,
                },
            )
        }
    }
}

/// A committed deposit: its event and the payments the host must make.
pub struct InjectOutcome {
    pub event: InjectEvent,
    pub transfers: Vec<Transfer>,
}

/// Deposits `deposit` for the participant `scientist_state` at `current_ts`.
///
/// `referral_records` are the records of the participant's referrers, nearest
/// first, as many as the split reaches. The result is the one `inject_plan`
/// gives; on an error no record changes. Referrer records only ever gain
/// research earnings: their units stay as they were.
pub fn handle_inject(
    laboratory_state: &LaboratoryState,
    reactor_state: &mut ReactorState,
    experiment_state: &mut ExperimentState,
    scientist_state: &mut ScientistState,
    referral_records: &mut Vec<ReferralRecord>,
    program_id: &Address,
    deposit: u64,
    current_ts: i64,
) -> (r: Result<InjectOutcome, CrazySolError>)
    ensures
        r is Err ==> *final(reactor_state) == *old(reactor_state) && *final(experiment_state)
            == *old(experiment_state) && *final(scientist_state) == *old(scientist_state)
            && final(referral_records)@ == old(referral_records)@,
        r is Ok ==> final(referral_records)@.len() == old(referral_records)@.len() && forall|j: int|
            0 <= j < old(referral_records)@.len() ==> (#[trigger] final(referral_records)@[j]).state.owned_pill
                == old(referral_records)@[j].state.owned_pill,
        r is Ok ==> final(reactor_state).pill_supply - old(reactor_state).pill_supply == final(scientist_state).owned_pill - old(scientist_state).owned_pill,
        (r matches Ok(out) ==> {
            let plan = inject_plan(
                *laboratory_state,
                *old(reactor_state),
                *old(experiment_state),
                *old(scientist_state),
                old(referral_records)@,
                program_id.bytes@,
                deposit,
                current_ts,
            );
            &&& plan is Ok
            &&& *final(scientist_state) == plan->Ok_0.scientist
            &&& *final(reactor_state) == plan->Ok_0.reactor
            &&& *final(experiment_state) == plan->Ok_0.experiment
            &&& final(referral_records)@ == plan->Ok_0.records
            &&& out.transfers@ == plan->Ok_0.transfers
            &&& out.event.scientist == old(scientist_state).owner
            &&& out.event.amount == deposit
            &&& out.event.new_pill == plan->Ok_0.minted
            &&& out.event.total_owned_pill == final(scientist_state).owned_pill
            &&& out.event.total_owned_pcrazy == final(scientist_state).owned_pcrazy
            &&& out.event.timestamp == current_ts
        }),
        (r matches Err(e) ==> (inject_plan(
            *laboratory_state,
            *old(reactor_state),
            *old(experiment_state),
            *old(scientist_state),
            old(referral_records)@,
            program_id.bytes@,
            deposit,
            current_ts,
        ) == Err::<InjectPlan, CrazySolError>(e))),
        inject_plan(
            *laboratory_state,
            *old(reactor_state),
            *old(experiment_state),
            *old(scientist_state),
            old(referral_records)@,
            program_id.bytes@,
            deposit,
            current_ts,
        ) is Err ==> r is Err,
{
    let ghost plan = inject_plan(
        *laboratory_state,
        *reactor_state,
        *experiment_state,
        *scientist_state,
        referral_records@,
        program_id.bytes@,
        deposit,
        current_ts,
    );
    let ghost sci0 = *scientist_state;
    let lab = laboratory_state;
    let f = lab.reaction_formula;
    verify_laboratory_initialized_and_operational(lab)?;
    if deposit < MIN_INJECTION {
        return Err(CrazySolError::InjectionTooSmall);
    }
    let pending = project_yield(scientist_state, &lab.reaction_formula, current_ts)?;
    let fee = match checked_tax(deposit, lab.containment_tax_bps) {
        Some(t) => t,
        None => return Err(CrazySolError::Overflow),
    };
    if fee > deposit {
        return Err(CrazySolError::Overflow);
    }
    let remaining = deposit - fee;
    let dev_fees = match experiment_state.total_dev_fees_collected.checked_add(fee) {
        Some(v) => v,
        None => return Err(CrazySolError::Overflow),
    };
    let routing = route_research_rewards(
        remaining,
        scientist_state.recruiter,
        referral_records,
        program_id,
        experiment_state.total_research_fees_collected,
    )?;
    let ghost rs = research_routing(
        program_id.bytes@,
        remaining as int,
        sci0.recruiter,
        old(referral_records)@,
        old(experiment_state).total_research_fees_collected as int,
    )->Ok_0;
    let net = remaining - routing.total;
    let mut transfers: Vec<Transfer> = Vec::new();
    if fee > 0 {
        transfers.push(Transfer { to: Payee::FeeRecipient, amount: fee });
    }
    let mut i: usize = 0;
    while i < routing.transfers.len()
        invariant
            0 <= i <= routing.transfers@.len(),
            transfers@ == fee_transfers(fee as int) + routing.transfers@.take(i as int),
        decreases routing.transfers@.len() - i,
    {
        transfers.push(routing.transfers[i]);
        proof {
            assert(routing.transfers@.take(i + 1) =~= routing.transfers@.take(i as int).push(
                routing.transfers@[i as int],
            ));
            assert(transfers@ =~= fee_transfers(fee as int) + routing.transfers@.take(i + 1));
        }
        i = i + 1;
    }
    if net > 0 {
        transfers.push(Transfer { to: Payee::ExternalReactor, amount: net });
    }
    proof {
        assert(routing.transfers@.take(routing.transfers@.len() as int) =~= routing.transfers@);
        assert(transfers@ =~= fee_transfers(fee as int) + rs.paid + sink_transfers(net as int));
    }
    if f.bonding_curve_m == 0 {
        return Err(CrazySolError::Overflow);
    }
    let units = match compute_rate_of_centrifugation(
        reactor_state.pill_supply,
        net as u128,
        f.bonding_curve_p0,
        f.bonding_curve_m,
    ) {
        Some(u) => u,
        None => return Err(CrazySolError::Overflow),
    };
    let minted = match checked_with_bonus(
        units,
        f.first_injection_bonus,
        !scientist_state.is_first_injection_done,
    ) {
        Some(v) => v,
        None => return Err(CrazySolError::Overflow),
    };
    let owned_pill = match scientist_state.owned_pill.checked_add(minted) {
        Some(v) => v,
        None => return Err(CrazySolError::Overflow),
    };
    let supply = match reactor_state.pill_supply.checked_add(minted) {
        Some(v) => v,
        None => return Err(CrazySolError::Overflow),
    };
    let sol_injected = match scientist_state.sol_injected.checked_add(deposit) {
        Some(v) => v,
        None => return Err(CrazySolError::Overflow),
    };
    let grant = if lab.innoculation_happened {
        0
    } else {
        capped_grant(PCRAZY_INJECTION_REWARDS, reactor_state.owned_pcrazy)
    };
    let owned_pcrazy = match scientist_state.owned_pcrazy.checked_add(grant) {
        Some(v) => v,
        None => return Err(CrazySolError::Overflow),
    };
    let total_injected = match experiment_state.total_sol_injected.checked_add(deposit) {
        Some(v) => v,
        None => return Err(CrazySolError::Overflow),
    };
    apply_credits(referral_records, &routing.credits);
    scientist_state.distillable_yield = pending;
    scientist_state.owned_pill = owned_pill;
    scientist_state.owned_pcrazy = owned_pcrazy;
    scientist_state.is_first_injection_done = true;
    scientist_state.sol_injected = sol_injected;
    scientist_state.last_distillation_timestamp = current_ts;
    reactor_state.pill_supply = supply;
    reactor_state.owned_pcrazy = reactor_state.owned_pcrazy - grant;
    experiment_state.total_dev_fees_collected = dev_fees;
    experiment_state.total_research_fees_collected = routing.research_fees;
    experiment_state.total_sol_injected = total_injected;
    let event = InjectEvent {
        scientist: scientist_state.owner,
        amount: deposit,
        new_pill: minted,
        total_owned_pill: owned_pill,
        total_owned_pcrazy: owned_pcrazy,
        timestamp: current_ts,
    };
    Ok(InjectOutcome { event, transfers })
}

} // verus!
