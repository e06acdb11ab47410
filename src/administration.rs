//! Operations reserved to the laboratory's director, and the pool top-ups.
use crate::address::{find_record_address, key_is_on_curve, on_curve, program_address, Address};
use crate::constants::{MAX_CONTAINMENT_TAX_BPS, SCIENTIST_SEED};
use crate::errors::CrazySolError;
use crate::laws::latch_preserved;
use crate::events::{
    DepositFromExternalReactorEvent, GiveSomePcrazyEvent, IncreasepCRAZYLiquidityEvent,
    InitializeEvent, InnoculateEvent, ReplaceDirectorEvent, SwitchEmergencyLockdownEvent,
    UpdateBigPharmaEvent, UpdateContainmentTaxBpsEvent, UpdateReactionFormulaEvent,
};
use crate::referral::ReferralRecord;
use crate::security::{require_initialized, require_innoculation_not_happened, require_not_initialized};
use crate::states::{ExperimentState, LaboratoryState, ReactionFormula, ReactorState, ScientistState};
use vstd::prelude::*;

verus! {

/// The error, if any, that refuses a director-only operation on an
/// initialized laboratory.
pub open spec fn director_error(lab: LaboratoryState, signer: Address) -> Option<CrazySolError> {
    if signer != lab.director {
        Some(CrazySolError::Unauthorized)
    } else if !lab.is_initialized {
        Some(CrazySolError::NotInitialized)
    } else {
        None
    }
}

fn require_director(laboratory_state: &LaboratoryState, signer: &Address) -> (r: Result<(), CrazySolError>)
    ensures
        r == (match director_error(*laboratory_state, *signer) {
            Some(e) => Err(e),
            None => Ok(()),
        }),
{
    if !signer.same_as(&laboratory_state.director) {
        return Err(CrazySolError::Unauthorized);
    }
    require_initialized(laboratory_state)
}

/// One-time setup of the three singleton records; the signer becomes the
/// director and the formula the canonical one.
pub fn handle_initialize(
    laboratory_state: &mut LaboratoryState,
    reactor_state: &mut ReactorState,
    experiment_state: &mut ExperimentState,
    director: Address,
    big_pharma: Address,
    containment_tax_bps: u16,
    owned_pcrazy: u64,
    external_reactor: Address,
) -> (r: Result<InitializeEvent, CrazySolError>)
    ensures
        latch_preserved(*old(laboratory_state), *final(laboratory_state)),
        old(laboratory_state).is_initialized ==> r == Err::<InitializeEvent, CrazySolError>(
            CrazySolError::AlreadyInitialized,
        ) && *final(laboratory_state) == *old(laboratory_state) && *final(reactor_state) == *old(reactor_state) && *final(experiment_state) == *old(experiment_state),
        !old(laboratory_state).is_initialized ==> (r is Ok) && *final(laboratory_state) == (
        LaboratoryState {
            director,
            big_pharma,
            containment_tax_bps,
            is_initialized: true,
            emergency_lockdown: false,
            innoculation_happened: false,
            reaction_formula: ReactionFormula {
                bonding_curve_m: 30,
                bonding_curve_p0: 100_000,
                reward_rate_per_pill: 2_222,
                min_daily_yield_bps: 800,
                first_injection_bonus: 10,
                first_mutation_bonus: 15,
            },
        }) && *final(reactor_state) == (ReactorState {
            sol_reserves: 0,
            owned_pcrazy,
            pill_supply: 0,
            external_reactor,
        }) && *final(experiment_state) == (ExperimentState {
            total_dev_fees_collected: 0,
            total_pills_vaporized: 0,
            total_research_fees_collected: 0,
            total_yield_distilled: 0,
            total_mutations_performed: 0,
            total_sol_injected: 0,
            total_scientists: 0,
            total_scientists_recruited: 0,
        }),
        (r matches Ok(event) ==> event.director == director && event.big_pharma == big_pharma
            && event.containment_tax_bps == containment_tax_bps && event.owned_pcrazy == owned_pcrazy
            && event.external_reactor == external_reactor && event.reaction_formula
            == final(laboratory_state).reaction_formula),
{
    require_not_initialized(laboratory_state)?;
    let formula = ReactionFormula::canonical();
    *laboratory_state = LaboratoryState {
        director,
        big_pharma,
        containment_tax_bps,
        is_initialized: true,
        emergency_lockdown: false,
        innoculation_happened: false,
        reaction_formula: formula,
    };
    *reactor_state = ReactorState { sol_reserves: 0, owned_pcrazy, pill_supply: 0, external_reactor };
    *experiment_state = ExperimentState {
        total_dev_fees_collected: 0,
        total_pills_vaporized: 0,
        total_research_fees_collected: 0,
        total_yield_distilled: 0,
        total_mutations_performed: 0,
        total_sol_injected: 0,
        total_scientists: 0,
        total_scientists_recruited: 0,
    };
    Ok(
        InitializeEvent {
            director,
            big_pharma,
            containment_tax_bps,
            owned_pcrazy,
            external_reactor,
            reaction_formula: formula,
        },
    )
}

/// Locks or unlocks the laboratory.
pub fn handle_switch_emergency_lockdown(
    laboratory_state: &mut LaboratoryState,
    signer: &Address,
    emergency_lockdown: bool,
) -> (r: Result<SwitchEmergencyLockdownEvent, CrazySolError>)
    ensures
        latch_preserved(*old(laboratory_state), *final(laboratory_state)),
        (director_error(*old(laboratory_state), *signer) matches Some(e) ==> r == Err::<
            SwitchEmergencyLockdownEvent,
            CrazySolError,
        >(e) && *final(laboratory_state) == *old(laboratory_state)),
        director_error(*old(laboratory_state), *signer) is None ==> (r is Ok) && *final(laboratory_state) == (LaboratoryState { emergency_lockdown, ..*old(laboratory_state) }),
        (r matches Ok(event) ==> event.is_emergency_lockdown == emergency_lockdown),
{
    require_director(laboratory_state, signer)?;
    laboratory_state.emergency_lockdown = emergency_lockdown;
    Ok(SwitchEmergencyLockdownEvent { is_emergency_lockdown: emergency_lockdown })
}

/// Hands the director role to `new_director`.
pub fn handle_replace_director(
    laboratory_state: &mut LaboratoryState,
    signer: &Address,
    new_director: Address,
) -> (r: Result<ReplaceDirectorEvent, CrazySolError>)
    ensures
        latch_preserved(*old(laboratory_state), *final(laboratory_state)),
        (director_error(*old(laboratory_state), *signer) matches Some(e) ==> r == Err::<
            ReplaceDirectorEvent,
            CrazySolError,
        >(e) && *final(laboratory_state) == *old(laboratory_state)),
        director_error(*old(laboratory_state), *signer) is None ==> (r is Ok) && *final(laboratory_state) == (LaboratoryState { director: new_director, ..*old(laboratory_state) }),
        (r matches Ok(event) ==> event.old_director == old(laboratory_state).director
            && event.new_director == new_director),
{
    require_director(laboratory_state, signer)?;
    let old_director = laboratory_state.director;
    laboratory_state.director = new_director;
    Ok(ReplaceDirectorEvent { old_director, new_director })
}

/// Sets the protocol tax; more than the fixed cap is refused.
pub fn handle_update_containment_tax_bps(
    laboratory_state: &mut LaboratoryState,
    signer: &Address,
    new_containment_tax_bps: u16,
) -> (r: Result<UpdateContainmentTaxBpsEvent, CrazySolError>)
    ensures
        latch_preserved(*old(laboratory_state), *final(laboratory_state)),
        (director_error(*old(laboratory_state), *signer) matches Some(e) ==> r == Err::<
            UpdateContainmentTaxBpsEvent,
            CrazySolError,
        >(e) && *final(laboratory_state) == *old(laboratory_state)),
        director_error(*old(laboratory_state), *signer) is None && new_containment_tax_bps
            > MAX_CONTAINMENT_TAX_BPS ==> r == Err::<UpdateContainmentTaxBpsEvent, CrazySolError>(
            CrazySolError::InvalidFeePercentage,
        ) && *final(laboratory_state) == *old(laboratory_state),
        director_error(*old(laboratory_state), *signer) is None && new_containment_tax_bps
            <= MAX_CONTAINMENT_TAX_BPS ==> (r is Ok) && *final(laboratory_state) == (LaboratoryState {
            containment_tax_bps: new_containment_tax_bps,
            ..*old(laboratory_state)
        }),
        (r matches Ok(event) ==> event.previous_containment_tax_bps == old(laboratory_state).containment_tax_bps && event.new_containment_tax_bps == new_containment_tax_bps),
{
    require_director(laboratory_state, signer)?;
    if new_containment_tax_bps > MAX_CONTAINMENT_TAX_BPS {
        return Err(CrazySolError::InvalidFeePercentage);
    }
    let previous_containment_tax_bps = laboratory_state.containment_tax_bps;
    laboratory_state.containment_tax_bps = new_containment_tax_bps;
    Ok(UpdateContainmentTaxBpsEvent { previous_containment_tax_bps, new_containment_tax_bps })
}

/// Replaces the fee recipient; a key off the ed25519 curve is refused.
pub fn handle_update_big_pharma(
    laboratory_state: &mut LaboratoryState,
    signer: &Address,
    new_big_pharma: Address,
) -> (r: Result<UpdateBigPharmaEvent, CrazySolError>)
    ensures
        latch_preserved(*old(laboratory_state), *final(laboratory_state)),
        (director_error(*old(laboratory_state), *signer) matches Some(e) ==> r == Err::<
            UpdateBigPharmaEvent,
            CrazySolError,
        >(e) && *final(laboratory_state) == *old(laboratory_state)),
        director_error(*old(laboratory_state), *signer) is None && !on_curve(new_big_pharma.bytes@)
            ==> r == Err::<UpdateBigPharmaEvent, CrazySolError>(CrazySolError::InvalidPubkey) && *final(laboratory_state) == *old(laboratory_state),
        director_error(*old(laboratory_state), *signer) is None && on_curve(new_big_pharma.bytes@)
            ==> (r is Ok) && *final(laboratory_state) == (LaboratoryState {
            big_pharma: new_big_pharma,
            ..*old(laboratory_state)
        }),
        (r matches Ok(event) ==> event.old_big_pharma == old(laboratory_state).big_pharma
            && event.new_big_pharma == new_big_pharma),
{
    require_director(laboratory_state, signer)?;
    if !key_is_on_curve(&new_big_pharma) {
        return Err(CrazySolError::InvalidPubkey);
    }
    let old_big_pharma = laboratory_state.big_pharma;
    laboratory_state.big_pharma = new_big_pharma;
    Ok(UpdateBigPharmaEvent { old_big_pharma, new_big_pharma })
}

/// Replaces the reaction formula.
pub fn handle_update_reaction_formula(
    laboratory_state: &mut LaboratoryState,
    signer: &Address,
    new_reaction_formula: ReactionFormula,
) -> (r: Result<UpdateReactionFormulaEvent, CrazySolError>)
    ensures
        latch_preserved(*old(laboratory_state), *final(laboratory_state)),
        (director_error(*old(laboratory_state), *signer) matches Some(e) ==> r == Err::<
            UpdateReactionFormulaEvent,
            CrazySolError,
        >(e) && *final(laboratory_state) == *old(laboratory_state)),
        director_error(*old(laboratory_state), *signer) is None ==> (r is Ok) && *final(laboratory_state) == (LaboratoryState { reaction_formula: new_reaction_formula, ..*old(laboratory_state) }),
        (r matches Ok(event) ==> event.new_reaction_formula == new_reaction_formula),
{
    require_director(laboratory_state, signer)?;
    laboratory_state.reaction_formula = new_reaction_formula;
    Ok(UpdateReactionFormulaEvent { new_reaction_formula })
}

/// Sets the launch latch, which no operation clears.
pub fn handle_innoculate(
    laboratory_state: &mut LaboratoryState,
    signer: &Address,
    timestamp: i64,
) -> (r: Result<InnoculateEvent, CrazySolError>)
    ensures
        latch_preserved(*old(laboratory_state), *final(laboratory_state)),
        (director_error(*old(laboratory_state), *signer) matches Some(e) ==> r == Err::<
            InnoculateEvent,
            CrazySolError,
        >(e) && *final(laboratory_state) == *old(laboratory_state)),
        director_error(*old(laboratory_state), *signer) is None && old(laboratory_state).innoculation_happened ==> r == Err::<InnoculateEvent, CrazySolError>(
            CrazySolError::InnoculationAlreadyHappened,
        ) && *final(laboratory_state) == *old(laboratory_state),
        director_error(*old(laboratory_state), *signer) is None && !old(laboratory_state).innoculation_happened ==> (r is Ok) && *final(laboratory_state) == (LaboratoryState {
            innoculation_happened: true,
            ..*old(laboratory_state)
        }),
        (r matches Ok(event) ==> event.innoculation_happened && event.timestamp == timestamp),
{
    require_director(laboratory_state, signer)?;
    require_innoculation_not_happened(laboratory_state)?;
    laboratory_state.innoculation_happened = true;
    Ok(InnoculateEvent { innoculation_happened: true, timestamp })
}

/// Adds reward tokens to the pool before launch.
pub fn handle_increase_pcrazy_liquidity(
    laboratory_state: &LaboratoryState,
    reactor_state: &mut ReactorState,
    signer: &Address,
    new_available_pcrazy_amount: u64,
) -> (r: Result<IncreasepCRAZYLiquidityEvent, CrazySolError>)
    ensures
        (director_error(*laboratory_state, *signer) matches Some(e) ==> r == Err::<
            IncreasepCRAZYLiquidityEvent,
            CrazySolError,
        >(e)),
        director_error(*laboratory_state, *signer) is None && laboratory_state.innoculation_happened
            ==> r == Err::<IncreasepCRAZYLiquidityEvent, CrazySolError>(
            CrazySolError::InnoculationAlreadyHappened,
        ),
        director_error(*laboratory_state, *signer) is None && !laboratory_state.innoculation_happened
            && old(reactor_state).owned_pcrazy + new_available_pcrazy_amount > u64::MAX ==> r
            == Err::<IncreasepCRAZYLiquidityEvent, CrazySolError>(CrazySolError::Overflow),
        director_error(*laboratory_state, *signer) is None && !laboratory_state.innoculation_happened
            && old(reactor_state).owned_pcrazy + new_available_pcrazy_amount <= u64::MAX ==> r is Ok,
        r is Err ==> *final(reactor_state) == *old(reactor_state),
        (r matches Ok(event) ==> *final(reactor_state) == (ReactorState {
            owned_pcrazy: (old(reactor_state).owned_pcrazy + new_available_pcrazy_amount) as u64,
            ..*old(reactor_state)
        }) && event.previous_available_pcrazy == old(reactor_state).owned_pcrazy
            && event.new_available_pcrazy == final(reactor_state).owned_pcrazy),
{
    require_director(laboratory_state, signer)?;
    require_innoculation_not_happened(laboratory_state)?;
    let previous_available_pcrazy = reactor_state.owned_pcrazy;
    let new_available_pcrazy = match previous_available_pcrazy.checked_add(new_available_pcrazy_amount) {
        Some(v) => v,
        None => return Err(CrazySolError::Overflow),
    };
    reactor_state.owned_pcrazy = new_available_pcrazy;
    Ok(IncreasepCRAZYLiquidityEvent { previous_available_pcrazy, new_available_pcrazy })
}

/// Records `lamports` moved into the pool by the external sink, which must
/// be the signer.
pub fn handle_deposit_from_external_reactor(
    laboratory_state: &LaboratoryState,
    reactor_state: &mut ReactorState,
    signer: &Address,
    lamports: u64,
    timestamp: i64,
) -> (r: Result<DepositFromExternalReactorEvent, CrazySolError>)
    ensures
        *signer != old(reactor_state).external_reactor ==> r == Err::<
            DepositFromExternalReactorEvent,
            CrazySolError,
        >(CrazySolError::Unauthorized),
        *signer == old(reactor_state).external_reactor && !laboratory_state.is_initialized ==> r
            == Err::<DepositFromExternalReactorEvent, CrazySolError>(CrazySolError::NotInitialized),
        *signer == old(reactor_state).external_reactor && laboratory_state.is_initialized && old(reactor_state).sol_reserves + lamports > u64::MAX ==> r == Err::<
            DepositFromExternalReactorEvent,
            CrazySolError,
        >(CrazySolError::Overflow),
        *signer == old(reactor_state).external_reactor && laboratory_state.is_initialized && old(
            reactor_state).sol_reserves + lamports <= u64::MAX ==> r is Ok,
        r is Err ==> *final(reactor_state) == *old(reactor_state),
        (r matches Ok(event) ==> *final(reactor_state) == (ReactorState {
            sol_reserves: (old(reactor_state).sol_reserves + lamports) as u64,
            ..*old(reactor_state)
        }) && event.amount == lamports && event.timestamp == timestamp),
{
    if !signer.same_as(&reactor_state.external_reactor) {
        return Err(CrazySolError::Unauthorized);
    }
    require_initialized(laboratory_state)?;
    reactor_state.sol_reserves = match reactor_state.sol_reserves.checked_add(lamports) {
        Some(v) => v,
        None => return Err(CrazySolError::Overflow),
    };
    Ok(DepositFromExternalReactorEvent { amount: lamports, timestamp })
}

/// The error, if any, that refuses a manual grant of `amount` to
/// `scientist` through the record `receiver`.
pub open spec fn funding_error(
    lab: LaboratoryState,
    reactor: ReactorState,
    receiver: ReferralRecord,
    signer: Address,
    program: Seq<u8>,
    scientist: Address,
    amount: u64,
) -> Option<CrazySolError> {
    if director_error(lab, signer) is Some {
        director_error(lab, signer)
    } else if reactor.owned_pcrazy < amount {
        Some(CrazySolError::InsufficientpCRAZY)
    } else if program_address(SCIENTIST_SEED@, scientist.bytes@, program) != Some(receiver.key.bytes@) {
        Some(CrazySolError::InvalidScientistAddress)
    } else if receiver.state.owner != scientist {
        Some(CrazySolError::InvalidScientist)
    } else if receiver.state.owned_pcrazy + amount > u64::MAX {
        Some(CrazySolError::Overflow)
    } else {
        None
    }
}

/// Grants `amount` reward tokens from the pool to the participant `scientist`,
/// whose record `receiver` must be stored under the key derived from it.
pub fn handle_give_public_funding(
    laboratory_state: &LaboratoryState,
    reactor_state: &mut ReactorState,
    receiver: &mut ReferralRecord,
    signer: &Address,
    program_id: &Address,
    scientist: Address,
    amount: u64,
) -> (r: Result<GiveSomePcrazyEvent, CrazySolError>)
    ensures
        (funding_error(
            *laboratory_state,
            *old(reactor_state),
            *old(receiver),
            *signer,
            program_id.bytes@,
            scientist,
            amount,
        ) matches Some(e) ==> r == Err::<GiveSomePcrazyEvent, CrazySolError>(e) && *final(reactor_state) == *old(reactor_state) && *final(receiver) == *old(receiver)),
        (funding_error(
            *laboratory_state,
            *old(reactor_state),
            *old(receiver),
            *signer,
            program_id.bytes@,
            scientist,
            amount,
        ) is None ==> (r is Ok) && *final(reactor_state) == (ReactorState {
            owned_pcrazy: (old(reactor_state).owned_pcrazy - amount) as u64,
            ..*old(reactor_state)
        }) && *final(receiver) == (ReferralRecord {
            state: ScientistState {
                owned_pcrazy: (old(receiver).state.owned_pcrazy + amount) as u64,
                ..old(receiver).state
            },
            ..*old(receiver)
        })),
        (r matches Ok(event) ==> event.scientist == scientist && event.amount == amount
            && event.new_scientist_pcrazy == final(receiver).state.owned_pcrazy
            && event.new_available_pcrazy_amount == final(reactor_state).owned_pcrazy),
{
    require_director(laboratory_state, signer)?;
    if reactor_state.owned_pcrazy < amount {
        return Err(CrazySolError::InsufficientpCRAZY);
    }
    let expected = match find_record_address(SCIENTIST_SEED, &scientist, program_id) {
        Some(a) => a,
        None => return Err(CrazySolError::InvalidScientistAddress),
    };
    if !receiver.key.same_as(&expected) {
        return Err(CrazySolError::InvalidScientistAddress);
    }
    if !receiver.state.owner.same_as(&scientist) {
        return Err(CrazySolError::InvalidScientist);
    }
    let new_scientist_pcrazy = match receiver.state.owned_pcrazy.checked_add(amount) {
        Some(v) => v,
        None => return Err(CrazySolError::Overflow),
    };
    receiver.state.owned_pcrazy = new_scientist_pcrazy;
    reactor_state.owned_pcrazy = reactor_state.owned_pcrazy - amount;
    Ok(
        GiveSomePcrazyEvent {
            scientist,
            amount,
            new_scientist_pcrazy,
            new_available_pcrazy_amount: reactor_state.owned_pcrazy,
        },
    )
}

} // verus!
