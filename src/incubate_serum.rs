//! Time-based yield accrual.
use crate::constants::MIN_YIELD_REFERENCE;
use crate::errors::CrazySolError;
use crate::states::{LaboratoryState, ReactionFormula, ScientistState};
use crate::time::SECONDS_IN_24H;
use vstd::prelude::*;

verus! {

/// The guaranteed rate per unit per second: the minimum daily yield (basis
/// points of the reference magnitude) spread over one day.
pub open spec fn min_rate_per_sec(f: ReactionFormula) -> int {
    (MIN_YIELD_REFERENCE * f.min_daily_yield_bps / 10_000) / (SECONDS_IN_24H as int)
}

/// The configured rate, floored to the guaranteed one.
pub open spec fn effective_rate(f: ReactionFormula) -> int {
    if f.reward_rate_per_pill < min_rate_per_sec(f) {
        min_rate_per_sec(f)
    } else {
        f.reward_rate_per_pill as int
    }
}

/// Whether accrual at `now` adds anything and moves the checkpoint: the
/// participant holds units and time has moved forward.
pub open spec fn accrual_advances(s: ScientistState, now: i64) -> bool {
    s.owned_pill > 0 && now - s.last_distillation_timestamp > 0
}

/// The pending yield after accrual at `now`, or `None` where a checked step
/// fails. The amount added is units * rate * elapsed seconds; without units,
/// or when the clock has not moved forward, nothing is added and nothing
/// fails.
pub open spec fn accrued_yield(s: ScientistState, f: ReactionFormula, now: i64) -> Option<u64> {
    let elapsed = now - s.last_distillation_timestamp;
    if s.owned_pill == 0 || elapsed <= 0 {
        Some(s.distillable_yield)
    } else if MIN_YIELD_REFERENCE * f.min_daily_yield_bps > u64::MAX {
        None
    } else if s.distillable_yield + s.owned_pill * effective_rate(f) * elapsed > u64::MAX {
        None
    } else {
        Some((s.distillable_yield + s.owned_pill * effective_rate(f) * elapsed) as u64)
    }
}

/// The record after accrual at `now` has produced pending yield `y`.
pub open spec fn accrued_state(s: ScientistState, y: u64, now: i64) -> ScientistState {
    ScientistState {
        distillable_yield: y,
        last_distillation_timestamp: if accrual_advances(s, now) {
            now
        } else {
            s.last_distillation_timestamp
        },
        ..s
    }
}

/// The pending yield accrued at `now`, computed without touching the record.
pub(crate) fn project_yield(s: &ScientistState, f: &ReactionFormula, now: i64) -> (r: Result<
    u64,
    CrazySolError,
>)
    ensures
        r == (match accrued_yield(*s, *f, now) {
            Some(y) => Ok(y),
            None => Err(CrazySolError::Overflow),
        }),
{
    if s.owned_pill == 0 || now <= s.last_distillation_timestamp {
        return Ok(s.distillable_yield);
    }
    let elapsed = ((now as i128) - (s.last_distillation_timestamp as i128)) as u128;
    let min_daily_yield = match MIN_YIELD_REFERENCE.checked_mul(f.min_daily_yield_bps) {
        Some(v) => v / 10_000,
        None => return Err(CrazySolError::Overflow),
    };
    let min_rate = min_daily_yield / SECONDS_IN_24H;
    let rate = if f.reward_rate_per_pill < min_rate {
        min_rate
    } else {
        f.reward_rate_per_pill
    };
    let ghost total = s.owned_pill * effective_rate(*f) * elapsed;
    proof {
        assert(rate == effective_rate(*f));
        assert(total >= 0) by (nonlinear_arith)
            requires
                total == s.owned_pill * rate * elapsed,
                rate >= 0,
                elapsed > 0,
        ;
    }
    let per_second = match s.owned_pill.checked_mul(rate as u128) {
        Some(v) => v,
        None => {
            proof {
                assert(total >= s.owned_pill * rate) by (nonlinear_arith)
                    requires
                        total == s.owned_pill * rate * elapsed,
                        s.owned_pill * rate >= 0,
                        elapsed >= 1,
                ;
            }
            return Err(CrazySolError::Overflow);
        },
    };
    let amount = match per_second.checked_mul(elapsed) {
        Some(v) => v,
        None => return Err(CrazySolError::Overflow),
    };
    if amount > u64::MAX as u128 {
        return Err(CrazySolError::Overflow);
    }
    match s.distillable_yield.checked_add(amount as u64) {
        Some(y) => Ok(y),
        None => Err(CrazySolError::Overflow),
    }
}

impl ScientistState {
    /// Brings the pending yield up to `current_ts` and moves the checkpoint
    /// there. Nothing happens without units or when the clock has not moved
    /// forward; an overflow refuses the accrual and leaves the record as it
    /// was.
    pub fn incubate_serum(&mut self, laboratory_state: &LaboratoryState, current_ts: i64) -> (r:
        Result<(), CrazySolError>)
        ensures
            old(self).owned_pill == 0 || current_ts <= old(self).last_distillation_timestamp ==> r
                is Ok && *final(self) == *old(self),
            match accrued_yield(*old(self), laboratory_state.reaction_formula, current_ts) {
                Some(y) => r is Ok && *final(self) == accrued_state(*old(self), y, current_ts),
                None => r == Err::<(), CrazySolError>(CrazySolError::Overflow) && *final(self)
                    == *old(self),
            },
    {
        let y = project_yield(self, &laboratory_state.reaction_formula, current_ts)?;
        if self.owned_pill > 0 && current_ts > self.last_distillation_timestamp {
            self.last_distillation_timestamp = current_ts;
        }
        self.distillable_yield = y;
        Ok(())
    }
}

/// Accrual is idempotent at a fixed instant: once the yield has been brought
/// up to `now`, accruing again at `now` adds nothing and projects the same
/// pending yield.
pub proof fn lemma_accrual_idempotent(s: ScientistState, f: ReactionFormula, now: i64)
    requires
        accrued_yield(s, f, now) is Some,
    ensures
        accrued_yield(accrued_state(s, accrued_yield(s, f, now)->0, now), f, now) == accrued_yield(
            s,
            f,
            now,
        ),
{
}

} // verus!
