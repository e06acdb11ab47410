use anchor_lang::prelude::Pubkey;
use crazysol::address::Address;
use crazysol::administration::{
    handle_deposit_from_external_reactor, handle_give_public_funding, handle_increase_pcrazy_liquidity,
    handle_initialize, handle_innoculate, handle_replace_director, handle_switch_emergency_lockdown,
    handle_update_big_pharma, handle_update_containment_tax_bps, handle_update_reaction_formula,
};
use crazysol::errors::CrazySolError;
use crazysol::referral::ReferralRecord;
use crazysol::states::{ExperimentState, LaboratoryState, ReactionFormula, ReactorState, ScientistState};

fn key(n: u8) -> Address {
    Address { bytes: [n; 32] }
}

fn blank_lab() -> LaboratoryState {
    LaboratoryState {
        director: key(0),
        big_pharma: key(0),
        containment_tax_bps: 0,
        is_initialized: false,
        emergency_lockdown: false,
        innoculation_happened: false,
        reaction_formula: ReactionFormula {
            bonding_curve_m: 0,
            bonding_curve_p0: 0,
            reward_rate_per_pill: 0,
            min_daily_yield_bps: 0,
            first_injection_bonus: 0,
            first_mutation_bonus: 0,
        },
    }
}

fn blank_reactor() -> ReactorState {
    ReactorState { sol_reserves: 0, owned_pcrazy: 0, pill_supply: 0, external_reactor: key(0) }
}

fn blank_stats() -> ExperimentState {
    ExperimentState {
        total_dev_fees_collected: 0,
        total_pills_vaporized: 0,
        total_research_fees_collected: 0,
        total_yield_distilled: 0,
        total_mutations_performed: 0,
        total_sol_injected: 0,
        total_scientists: 0,
        total_scientists_recruited: 0,
    }
}

fn ready() -> (LaboratoryState, ReactorState) {
    let mut lab = blank_lab();
    let mut reactor = blank_reactor();
    let mut stats = blank_stats();
    handle_initialize(&mut lab, &mut reactor, &mut stats, key(1), key(2), 50, 1_000, key(3)).unwrap();
    (lab, reactor)
}

#[test]
fn initialize_once_with_canonical_formula() {
    let mut lab = blank_lab();
    let mut reactor = blank_reactor();
    let mut stats = blank_stats();
    let event = handle_initialize(&mut lab, &mut reactor, &mut stats, key(1), key(2), 50, 1_000, key(3)).unwrap();
    assert!(lab.is_initialized);
    assert_eq!(lab.director, key(1));
    assert_eq!(lab.reaction_formula, ReactionFormula::canonical());
    assert_eq!(lab.reaction_formula.bonding_curve_m, 30);
    assert_eq!(lab.reaction_formula.first_mutation_bonus, 15);
    assert_eq!(reactor.owned_pcrazy, 1_000);
    assert_eq!(event.containment_tax_bps, 50);
    let again = handle_initialize(&mut lab, &mut reactor, &mut stats, key(9), key(9), 0, 0, key(9));
    assert_eq!(again.err(), Some(CrazySolError::AlreadyInitialized));
    assert_eq!(lab.director, key(1));
}

#[test]
fn only_the_director_may_administer() {
    let (mut lab, _) = ready();
    let r = handle_switch_emergency_lockdown(&mut lab, &key(7), true);
    assert_eq!(r.err(), Some(CrazySolError::Unauthorized));
    assert!(!lab.emergency_lockdown);
    handle_switch_emergency_lockdown(&mut lab, &key(1), true).unwrap();
    assert!(lab.emergency_lockdown);
    let event = handle_replace_director(&mut lab, &key(1), key(8)).unwrap();
    assert_eq!(event.old_director, key(1));
    assert_eq!(lab.director, key(8));
    let r = handle_replace_director(&mut lab, &key(1), key(1));
    assert_eq!(r.err(), Some(CrazySolError::Unauthorized));
}

#[test]
fn uninitialized_laboratory_refuses_administration() {
    let mut lab = blank_lab();
    let r = handle_switch_emergency_lockdown(&mut lab, &key(0), true);
    assert_eq!(r.err(), Some(CrazySolError::NotInitialized));
}

#[test]
fn tax_rate_bound() {
    let (mut lab, _) = ready();
    let r = handle_update_containment_tax_bps(&mut lab, &key(1), 101);
    assert_eq!(r.err(), Some(CrazySolError::InvalidFeePercentage));
    assert_eq!(lab.containment_tax_bps, 50);
    let event = handle_update_containment_tax_bps(&mut lab, &key(1), 100).unwrap();
    assert_eq!(event.previous_containment_tax_bps, 50);
    assert_eq!(lab.containment_tax_bps, 100);
}

#[test]
fn fee_recipient_must_be_on_curve() {
    let (mut lab, _) = ready();
    // A program-derived address lies off the curve by construction.
    let (pda, _) = Pubkey::find_program_address(&[b"anything"], &Pubkey::new_from_array([5; 32]));
    let r = handle_update_big_pharma(&mut lab, &key(1), Address { bytes: pda.to_bytes() });
    assert_eq!(r.err(), Some(CrazySolError::InvalidPubkey));
    // The compressed ed25519 base point.
    let mut base = [0x66u8; 32];
    base[0] = 0x58;
    handle_update_big_pharma(&mut lab, &key(1), Address { bytes: base }).unwrap();
    assert_eq!(lab.big_pharma, Address { bytes: base });
}

#[test]
fn formula_replacement() {
    let (mut lab, _) = ready();
    let mut formula = ReactionFormula::canonical();
    formula.bonding_curve_m = 7;
    let event = handle_update_reaction_formula(&mut lab, &key(1), formula).unwrap();
    assert_eq!(event.new_reaction_formula.bonding_curve_m, 7);
    assert_eq!(lab.reaction_formula.bonding_curve_m, 7);
}

#[test]
fn launch_latch_is_set_once() {
    let (mut lab, mut reactor) = ready();
    handle_increase_pcrazy_liquidity(&lab, &mut reactor, &key(1), 500).unwrap();
    assert_eq!(reactor.owned_pcrazy, 1_500);
    let event = handle_innoculate(&mut lab, &key(1), 42).unwrap();
    assert!(event.innoculation_happened);
    assert!(lab.innoculation_happened);
    let r = handle_innoculate(&mut lab, &key(1), 43);
    assert_eq!(r.err(), Some(CrazySolError::InnoculationAlreadyHappened));
    assert!(lab.innoculation_happened);
    handle_switch_emergency_lockdown(&mut lab, &key(1), true).unwrap();
    handle_update_containment_tax_bps(&mut lab, &key(1), 10).unwrap();
    assert!(lab.innoculation_happened);
    let r = handle_increase_pcrazy_liquidity(&lab, &mut reactor, &key(1), 500);
    assert_eq!(r.err(), Some(CrazySolError::InnoculationAlreadyHappened));
}

#[test]
fn liquidity_overflow() {
    let (lab, mut reactor) = ready();
    let r = handle_increase_pcrazy_liquidity(&lab, &mut reactor, &key(1), u64::MAX);
    assert_eq!(r.err(), Some(CrazySolError::Overflow));
    assert_eq!(reactor.owned_pcrazy, 1_000);
}

#[test]
fn external_sink_deposit() {
    let (lab, mut reactor) = ready();
    let r = handle_deposit_from_external_reactor(&lab, &mut reactor, &key(1), 10, 5);
    assert_eq!(r.err(), Some(CrazySolError::Unauthorized));
    let event = handle_deposit_from_external_reactor(&lab, &mut reactor, &key(3), 10, 5).unwrap();
    assert_eq!(event.amount, 10);
    assert_eq!(reactor.sol_reserves, 10);
}

fn participant(owner: Address, program: &Address) -> ReferralRecord {
    let (pda, _) = Pubkey::find_program_address(
        &[b"scientist-state", &owner.bytes],
        &Pubkey::new_from_array(program.bytes),
    );
    ReferralRecord {
        key: Address { bytes: pda.to_bytes() },
        state: ScientistState {
            owner,
            username: String::from("ada"),
            recruiter: None,
            owned_pill: 0,
            owned_pcrazy: 4,
            is_first_injection_done: false,
            is_first_mutation_done: false,
            sol_injected: 0,
            last_streak_timestamp: 0,
            current_streak: 0,
            last_distillation_timestamp: 0,
            distillable_yield: 0,
            test_subjects_count: 0,
            specimens_count: 0,
            samples_count: 0,
            earned_sol: 0,
            earned_sol_from_research: 0,
        },
    }
}

#[test]
fn manual_grant() {
    let (lab, mut reactor) = ready();
    let program = key(200);
    let mut receiver = participant(key(60), &program);
    let event = handle_give_public_funding(&lab, &mut reactor, &mut receiver, &key(1), &program, key(60), 400).unwrap();
    assert_eq!(event.new_scientist_pcrazy, 404);
    assert_eq!(reactor.owned_pcrazy, 600);
    let r = handle_give_public_funding(&lab, &mut reactor, &mut receiver, &key(1), &program, key(60), 601);
    assert_eq!(r.err(), Some(CrazySolError::InsufficientpCRAZY));
    let r = handle_give_public_funding(&lab, &mut reactor, &mut receiver, &key(1), &program, key(61), 1);
    assert_eq!(r.err(), Some(CrazySolError::InvalidScientistAddress));
    let mut misowned = participant(key(60), &program);
    misowned.state.owner = key(62);
    let r = handle_give_public_funding(&lab, &mut reactor, &mut misowned, &key(1), &program, key(60), 1);
    assert_eq!(r.err(), Some(CrazySolError::InvalidScientist));
}
