//! Properties that hold across sequences of transitions.
use crate::states::{LaboratoryState, ScientistState};
use vstd::prelude::*;

verus! {

/// The launch latch is only ever set on an initialized laboratory.
pub open spec fn latch_consistent(lab: LaboratoryState) -> bool {
    lab.innoculation_happened ==> lab.is_initialized
}

/// What every operation on the laboratory record keeps: a consistent record
/// stays consistent, and a set latch stays set.
pub open spec fn latch_preserved(before: LaboratoryState, after: LaboratoryState) -> bool {
    latch_consistent(before) ==> latch_consistent(after) && (before.innoculation_happened
        ==> after.innoculation_happened)
}

/// Along any run of operations that each keep `latch_preserved`, starting
/// from a consistent record, the launch latch never returns to unset once set,
/// and it goes from unset to set at most once.
pub proof fn lemma_latch_monotone(runs: Seq<LaboratoryState>, i: int, j: int)
    requires
        runs.len() > 0,
        latch_consistent(runs[0]),
        forall|k: int| 0 <= k < runs.len() - 1 ==> latch_preserved(#[trigger] runs[k], runs[k + 1]),
        0 <= i <= j < runs.len(),
    ensures
        runs[i].innoculation_happened ==> runs[j].innoculation_happened,
        forall|a: int, b: int|
            0 <= a < runs.len() - 1 && 0 <= b < runs.len() - 1 && !(#[trigger] runs[a]).innoculation_happened
                && runs[a + 1].innoculation_happened && !(#[trigger] runs[b]).innoculation_happened
                && runs[b + 1].innoculation_happened ==> a == b,
{
    lemma_consistent_prefix(runs, runs.len() - 1);
    lemma_latch_kept(runs, i, j);
    assert forall|a: int, b: int|
        0 <= a < runs.len() - 1 && 0 <= b < runs.len() - 1 && !(#[trigger] runs[a]).innoculation_happened
            && runs[a + 1].innoculation_happened && !(#[trigger] runs[b]).innoculation_happened
            && runs[b + 1].innoculation_happened implies a == b by {
        if a < b {
            lemma_latch_kept(runs, a + 1, b);
        } else if b < a {
            lemma_latch_kept(runs, b + 1, a);
        }
    }
}

proof fn lemma_consistent_prefix(runs: Seq<LaboratoryState>, n: int)
    requires
        runs.len() > 0,
        latch_consistent(runs[0]),
        forall|k: int| 0 <= k < runs.len() - 1 ==> latch_preserved(#[trigger] runs[k], runs[k + 1]),
        0 <= n < runs.len(),
    ensures
        forall|k: int| 0 <= k <= n ==> latch_consistent(#[trigger] runs[k]),
    decreases n,
{
    if n > 0 {
        lemma_consistent_prefix(runs, n - 1);
        assert(latch_preserved(runs[n - 1], runs[n]));
    }
}

proof fn lemma_latch_kept(runs: Seq<LaboratoryState>, i: int, j: int)
    requires
        forall|k: int| 0 <= k < runs.len() ==> latch_consistent(#[trigger] runs[k]),
        forall|k: int| 0 <= k < runs.len() - 1 ==> latch_preserved(#[trigger] runs[k], runs[k + 1]),
        0 <= i <= j < runs.len(),
    ensures
        runs[i].innoculation_happened ==> runs[j].innoculation_happened,
    decreases j - i,
{
    if i < j {
        assert(latch_preserved(runs[i], runs[i + 1]));
        assert(latch_consistent(runs[i]));
        lemma_latch_kept(runs, i + 1, j);
    }
}

/// Units held across a population of participants.
pub open spec fn total_units(population: Seq<ScientistState>) -> int
    decreases population.len(),
{
    if population.len() == 0 {
        0
    } else {
        total_units(population.drop_last()) + population.last().owned_pill
    }
}

proof fn lemma_total_units_update(population: Seq<ScientistState>, i: int, updated: ScientistState)
    requires
        0 <= i < population.len(),
    ensures
        total_units(population.update(i, updated)) == total_units(population)
            - population[i].owned_pill + updated.owned_pill,
    decreases population.len(),
{
    let next = population.update(i, updated);
    if i == population.len() - 1 {
        assert(next.drop_last() =~= population.drop_last());
    } else {
        lemma_total_units_update(population.drop_last(), i, updated);
        assert(next.drop_last() =~= population.drop_last().update(i, updated));
    }
}

/// The pool's unit supply stays equal to the units the participants hold:
/// when it matches before a transition that changes one participant's units
/// and the supply by the same amount (a deposit, a harvest with its decay, a
/// reinvestment), it matches after.
pub proof fn lemma_supply_conserved(
    population: Seq<ScientistState>,
    supply: int,
    i: int,
    updated: ScientistState,
    new_supply: int,
)
    requires
        0 <= i < population.len(),
        supply == total_units(population),
        new_supply - supply == updated.owned_pill - population[i].owned_pill,
    ensures
        new_supply == total_units(population.update(i, updated)),
{
    lemma_total_units_update(population, i, updated);
}

/// A registration adds a record without units and leaves the supply as it
/// was, so the two still match.
pub proof fn lemma_supply_conserved_on_registration(
    population: Seq<ScientistState>,
    supply: int,
    fresh: ScientistState,
)
    requires
        supply == total_units(population),
        fresh.owned_pill == 0,
    ensures
        supply == total_units(population.push(fresh)),
{
    assert(population.push(fresh).drop_last() =~= population);
}

} // verus!
