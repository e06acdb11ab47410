//! The daily streak claim, open before launch only.
use crate::constants::PCRAZY_DAILY_STREAK_BASE_REWARDS;
use crate::errors::CrazySolError;
use crate::events::IncubationPeriodEvent;
use crate::policy::{capped, capped_grant};
use crate::security::{
    operational_error, require_innoculation_not_happened,
    verify_laboratory_initialized_and_operational,
};
use crate::states::{LaboratoryState, ReactorState, ScientistState};
use crate::time::SECONDS_IN_24H;
use vstd::prelude::*;

verus! {

/// The streak and the reward a claim at `now` earns before the pool cap, or
/// the error that refuses it. A zero timestamp means no earlier claim. A
/// claim within a day of the last one is refused; one within two days
/// extends the streak and pays base times the new streak; a later one starts
/// over.
pub open spec fn streak_claim(last: i64, streak: u32, now: i64) -> Result<(u32, u64), CrazySolError> {
    let elapsed = now - last;
    let base = PCRAZY_DAILY_STREAK_BASE_REWARDS as int;
    if last == 0 {
        Ok((1u32, base as u64))
    } else if elapsed < SECONDS_IN_24H {
        Err(CrazySolError::CooldownActive)
    } else if elapsed <= 2 * SECONDS_IN_24H {
        if streak + 1 > u32::MAX || base * (streak + 1) > u64::MAX {
            Err(CrazySolError::Overflow)
        } else {
            Ok(((streak + 1) as u32, (base * (streak + 1)) as u64))
        }
    } else {
        Ok((1u32, base as u64))
    }
}

/// What a streak claim does to the participant and the pool, or the error
/// that refuses it. The reward is capped at the pool's reward tokens, and a
/// reward capped to zero is refused.
pub open spec fn incubation_plan(
    lab: LaboratoryState,
    reactor: ReactorState,
    sci: ScientistState,
    now: i64,
) -> Result<(ScientistState, ReactorState, u64), CrazySolError> {
    let claim = streak_claim(sci.last_streak_timestamp, sci.current_streak, now);
    let paid = capped(claim->Ok_0.1 as int, reactor.owned_pcrazy as int);
    if operational_error(lab) is Some {
        Err(operational_error(lab)->0)
    } else if lab.innoculation_happened {
        Err(CrazySolError::InnoculationAlreadyHappened)
    } else if claim is Err {
        Err(claim->Err_0)
    } else if paid == 0 {
        Err(CrazySolError::InsufficientpCRAZY)
    } else if sci.owned_pcrazy + paid > u64::MAX {
        Err(CrazySolError::Overflow)
    } else {
        Ok(
            (
                ScientistState {
                    owned_pcrazy: (sci.owned_pcrazy + paid) as u64,
                    current_streak: claim->Ok_0.0,
                    last_streak_timestamp: now,
                    ..sci
                },
                ReactorState { owned_pcrazy: (reactor.owned_pcrazy - paid) as u64, ..reactor },
                paid as u64,
            ),
        )
    }
}

/// Claims the daily streak reward for `scientist_account` at `current_time`.
/// The result is the one `incubation_plan` gives; on an error no record
/// changes.
pub fn handle_incubation_period(
    laboratory_state: &LaboratoryState,
    reactor_state: &mut ReactorState,
    scientist_account: &mut ScientistState,
    current_time: i64,
) -> (r: Result<IncubationPeriodEvent, CrazySolError>)
    ensures
        ({
            let plan = incubation_plan(
                *laboratory_state,
                *old(reactor_state),
                *old(scientist_account),
                current_time,
            );
            &&& plan is Err ==> r == Err::<IncubationPeriodEvent, CrazySolError>(plan->Err_0)
                && *final(reactor_state) == *old(reactor_state) && *final(scientist_account)
                == *old(scientist_account)
            &&& plan is Ok ==> r is Ok
        }),
        (r matches Ok(event) ==> {
            let plan = incubation_plan(
                *laboratory_state,
                *old(reactor_state),
                *old(scientist_account),
                current_time,
            )->Ok_0;
            &&& *final(scientist_account) == plan.0
            &&& *final(reactor_state) == plan.1
            &&& event.scientist == old(scientist_account).owner
            &&& event.reward == plan.2
            &&& event.current_streak == final(scientist_account).current_streak
            &&& event.total_owned_pcrazy == final(scientist_account).owned_pcrazy
            &&& event.new_timestamp == current_time
        }),
{
    let lab = laboratory_state;
    verify_laboratory_initialized_and_operational(lab)?;
    require_innoculation_not_happened(lab)?;
    let last = scientist_account.last_streak_timestamp;
    let reward: u64;
    let new_streak: u32;
    if last == 0 {
        reward = PCRAZY_DAILY_STREAK_BASE_REWARDS;
        new_streak = 1;
    } else {
        let elapsed = (current_time as i128) - (last as i128);
        if elapsed < SECONDS_IN_24H as i128 {
            return Err(CrazySolError::CooldownActive);
        } else if elapsed <= 2 * SECONDS_IN_24H as i128 {
            new_streak = match scientist_account.current_streak.checked_add(1) {
                Some(s) => s,
                None => return Err(CrazySolError::Overflow),
            };
            reward = match PCRAZY_DAILY_STREAK_BASE_REWARDS.checked_mul(new_streak as u64) {
                Some(v) => v,
                None => return Err(CrazySolError::Overflow),
            };
        } else {
            reward = PCRAZY_DAILY_STREAK_BASE_REWARDS;
            new_streak = 1;
        }
    }
    let paid = capped_grant(reward, reactor_state.owned_pcrazy);
    if paid == 0 {
        return Err(CrazySolError::InsufficientpCRAZY);
    }
    let owned = match scientist_account.owned_pcrazy.checked_add(paid) {
        Some(v) => v,
        None => return Err(CrazySolError::Overflow),
    };
    reactor_state.owned_pcrazy = reactor_state.owned_pcrazy - paid;
    scientist_account.owned_pcrazy = owned;
    scientist_account.current_streak = new_streak;
    scientist_account.last_streak_timestamp = current_time;
    Ok(
        IncubationPeriodEvent {
            scientist: scientist_account.owner,
            reward: paid,
            current_streak: new_streak,
            total_owned_pcrazy: owned,
            new_timestamp: current_time,
        },
    )
}

} // verus!
