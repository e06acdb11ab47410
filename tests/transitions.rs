use anchor_lang::prelude::Pubkey;
use crazysol::address::Address;
use crazysol::distill::handle_distill;
use crazysol::errors::CrazySolError;
use crazysol::inject::handle_inject;
use crazysol::incubation_period::handle_incubation_period;
use crazysol::mutate::handle_mutate;
use crazysol::referral::{Payee, ReferralRecord};
use crazysol::register_scientist::handle_register_scientist;
use crazysol::states::{ExperimentState, LaboratoryState, ReactionFormula, ReactorState, ScientistState};
use crazysol::views::{handle_get_distillable_output, handle_get_pill_potency};

fn key(n: u8) -> Address {
    Address { bytes: [n; 32] }
}

fn program() -> Address {
    key(200)
}

fn record_key(owner: &Address) -> Address {
    let (pda, _) = Pubkey::find_program_address(
        &[b"scientist-state", &owner.bytes],
        &Pubkey::new_from_array(program().bytes),
    );
    Address { bytes: pda.to_bytes() }
}

fn lab(tax: u16) -> LaboratoryState {
    LaboratoryState {
        director: key(1),
        big_pharma: key(2),
        containment_tax_bps: tax,
        is_initialized: true,
        emergency_lockdown: false,
        innoculation_happened: false,
        reaction_formula: ReactionFormula::canonical(),
    }
}

fn reactor(pcrazy: u64, supply: u128) -> ReactorState {
    ReactorState { sol_reserves: 0, owned_pcrazy: pcrazy, pill_supply: supply, external_reactor: key(3) }
}

fn experiment() -> ExperimentState {
    ExperimentState {
        total_dev_fees_collected: 0,
        total_pills_vaporized: 0,
        total_research_fees_collected: 0,
        total_yield_distilled: 0,
        total_mutations_performed: 0,
        total_sol_injected: 0,
        total_scientists: 0,
        total_scientists_recruited: 0,
    }
}

fn scientist(owner: Address, recruiter: Option<Address>) -> ScientistState {
    ScientistState {
        owner,
        username: String::from("curie"),
        recruiter,
        owned_pill: 0,
        owned_pcrazy: 0,
        is_first_injection_done: false,
        is_first_mutation_done: false,
        sol_injected: 0,
        last_streak_timestamp: 0,
        current_streak: 0,
        last_distillation_timestamp: 0,
        distillable_yield: 0,
        test_subjects_count: 0,
        specimens_count: 0,
        samples_count: 0,
        earned_sol: 0,
        earned_sol_from_research: 0,
    }
}

fn record(owner: Address, recruiter: Option<Address>) -> ReferralRecord {
    ReferralRecord { key: record_key(&owner), state: scientist(owner, recruiter) }
}

#[test]
fn first_deposit_without_referrer() {
    let laboratory = lab(0);
    let mut pool = reactor(1_000_000_000, 0);
    let mut stats = experiment();
    let mut me = scientist(key(10), None);
    let mut records: Vec<ReferralRecord> = Vec::new();
    let out = handle_inject(&laboratory, &mut pool, &mut stats, &mut me, &mut records, &program(), 100_000_000, 5_000)
        .unwrap();
    // 10% of the deposit goes to the fee recipient in three slots; 90,000,000 buys 803 units,
    // and the first deposit adds 10% of them.
    assert_eq!(out.event.new_pill, 883);
    assert_eq!(me.owned_pill, 883);
    assert_eq!(pool.pill_supply, 883);
    assert!(me.is_first_injection_done);
    let amounts: Vec<u64> = out.transfers.iter().map(|t| t.amount).collect();
    assert_eq!(amounts, vec![5_000_000, 3_000_000, 2_000_000, 90_000_000]);
    assert!(matches!(out.transfers[0].to, Payee::FeeRecipient));
    assert!(matches!(out.transfers[1].to, Payee::FeeRecipient));
    assert!(matches!(out.transfers[2].to, Payee::FeeRecipient));
    assert!(matches!(out.transfers[3].to, Payee::ExternalReactor));
    assert_eq!(stats.total_research_fees_collected, 10_000_000);
    assert_eq!(stats.total_dev_fees_collected, 0);
    assert_eq!(stats.total_sol_injected, 100_000_000);
    assert_eq!(me.sol_injected, 100_000_000);
    assert_eq!(me.owned_pcrazy, 100_000_000);
    assert_eq!(pool.owned_pcrazy, 900_000_000);
    assert_eq!(me.last_distillation_timestamp, 5_000);
}

#[test]
fn second_deposit_has_no_bonus() {
    let laboratory = lab(0);
    let mut pool = reactor(0, 0);
    let mut stats = experiment();
    let mut me = scientist(key(10), None);
    me.is_first_injection_done = true;
    let mut records: Vec<ReferralRecord> = Vec::new();
    let out = handle_inject(&laboratory, &mut pool, &mut stats, &mut me, &mut records, &program(), 100_000_000, 5_000)
        .unwrap();
    assert_eq!(out.event.new_pill, 803);
    assert_eq!(me.owned_pcrazy, 0);
}

#[test]
fn deposit_tax_goes_first() {
    let laboratory = lab(100);
    let mut pool = reactor(0, 0);
    let mut stats = experiment();
    let mut me = scientist(key(10), None);
    let mut records: Vec<ReferralRecord> = Vec::new();
    let out = handle_inject(&laboratory, &mut pool, &mut stats, &mut me, &mut records, &program(), 100_000_000, 1)
        .unwrap();
    // 1% tax, then 5/3/2% of the 99,000,000 left
    let amounts: Vec<u64> = out.transfers.iter().map(|t| t.amount).collect();
    assert_eq!(amounts, vec![1_000_000, 4_950_000, 2_970_000, 1_980_000, 89_100_000]);
    assert_eq!(stats.total_dev_fees_collected, 1_000_000);
}

#[test]
fn deposit_minimum_boundary() {
    let laboratory = lab(0);
    let mut pool = reactor(0, 0);
    let mut stats = experiment();
    let mut me = scientist(key(10), None);
    let mut records: Vec<ReferralRecord> = Vec::new();
    let r = handle_inject(&laboratory, &mut pool, &mut stats, &mut me, &mut records, &program(), 49_999_999, 1);
    assert_eq!(r.err(), Some(CrazySolError::InjectionTooSmall));
    let r = handle_inject(&laboratory, &mut pool, &mut stats, &mut me, &mut records, &program(), 50_000_000, 1);
    assert!(r.is_ok());
}

#[test]
fn deposit_refused_while_locked_or_uninitialized() {
    let mut laboratory = lab(0);
    laboratory.emergency_lockdown = true;
    let mut pool = reactor(0, 0);
    let mut stats = experiment();
    let mut me = scientist(key(10), None);
    let mut records: Vec<ReferralRecord> = Vec::new();
    let r = handle_inject(&laboratory, &mut pool, &mut stats, &mut me, &mut records, &program(), 60_000_000, 1);
    assert_eq!(r.err(), Some(CrazySolError::CurrentlyPaused));
    laboratory.is_initialized = false;
    let r = handle_inject(&laboratory, &mut pool, &mut stats, &mut me, &mut records, &program(), 60_000_000, 1);
    assert_eq!(r.err(), Some(CrazySolError::NotInitialized));
}

#[test]
fn deposit_with_zero_slope_is_refused() {
    let mut laboratory = lab(0);
    laboratory.reaction_formula.bonding_curve_m = 0;
    let mut pool = reactor(0, 0);
    let mut stats = experiment();
    let mut me = scientist(key(10), None);
    let mut records: Vec<ReferralRecord> = Vec::new();
    let r = handle_inject(&laboratory, &mut pool, &mut stats, &mut me, &mut records, &program(), 60_000_000, 1);
    assert_eq!(r.err(), Some(CrazySolError::Overflow));
}

#[test]
fn deposit_pays_three_referrers_up_the_chain() {
    let laboratory = lab(0);
    let mut pool = reactor(0, 0);
    let mut stats = experiment();
    let (a, b, c, d) = (key(20), key(21), key(22), key(23));
    let mut me = scientist(d, Some(c));
    let mut records = vec![record(c, Some(b)), record(b, Some(a)), record(a, None)];
    let out = handle_inject(&laboratory, &mut pool, &mut stats, &mut me, &mut records, &program(), 100_000_000, 1)
        .unwrap();
    assert!(matches!(out.transfers[0].to, Payee::Referrer(k) if k == c));
    assert!(matches!(out.transfers[1].to, Payee::Referrer(k) if k == b));
    assert!(matches!(out.transfers[2].to, Payee::Referrer(k) if k == a));
    assert_eq!(records[0].state.earned_sol, 5_000_000);
    assert_eq!(records[0].state.earned_sol_from_research, 5_000_000);
    assert_eq!(records[1].state.earned_sol, 3_000_000);
    assert_eq!(records[2].state.earned_sol_from_research, 2_000_000);
    assert_eq!(stats.total_research_fees_collected, 10_000_000);
}

#[test]
fn chain_that_ends_routes_the_rest_to_the_fee_recipient() {
    let laboratory = lab(0);
    let mut pool = reactor(0, 0);
    let mut stats = experiment();
    let (c, d) = (key(22), key(23));
    let mut me = scientist(d, Some(c));
    let mut records = vec![record(c, None)];
    let out = handle_inject(&laboratory, &mut pool, &mut stats, &mut me, &mut records, &program(), 100_000_000, 1)
        .unwrap();
    assert!(matches!(out.transfers[0].to, Payee::Referrer(k) if k == c));
    assert!(matches!(out.transfers[1].to, Payee::FeeRecipient));
    assert!(matches!(out.transfers[2].to, Payee::FeeRecipient));
    assert_eq!(records[0].state.earned_sol, 5_000_000);
}

#[test]
fn missing_referrer_record_is_refused() {
    let laboratory = lab(0);
    let mut pool = reactor(0, 0);
    let mut stats = experiment();
    let (b, c, d) = (key(21), key(22), key(23));
    let mut me = scientist(d, Some(c));
    let mut records = vec![record(c, Some(b))];
    let r = handle_inject(&laboratory, &mut pool, &mut stats, &mut me, &mut records, &program(), 100_000_000, 1);
    assert_eq!(r.err(), Some(CrazySolError::MissingAccount));
}

#[test]
fn referrer_record_under_wrong_key_is_refused() {
    let laboratory = lab(0);
    let mut pool = reactor(0, 0);
    let mut stats = experiment();
    let (c, d) = (key(22), key(23));
    let mut me = scientist(d, Some(c));
    let mut wrong = record(c, None);
    wrong.key = key(99);
    let mut records = vec![wrong];
    let r = handle_inject(&laboratory, &mut pool, &mut stats, &mut me, &mut records, &program(), 100_000_000, 1);
    assert_eq!(r.err(), Some(CrazySolError::InvalidRecruiter));
    let mut foreign = record(c, None);
    foreign.state.owner = key(98);
    let mut records = vec![foreign];
    let r = handle_inject(&laboratory, &mut pool, &mut stats, &mut me, &mut records, &program(), 100_000_000, 1);
    assert_eq!(r.err(), Some(CrazySolError::InvalidRecruiter));
}

#[test]
fn accrual_adds_units_times_rate_times_seconds() {
    let laboratory = lab(0);
    let mut me = scientist(key(10), None);
    me.owned_pill = 10;
    me.last_distillation_timestamp = 1_000;
    me.distillable_yield = 5;
    me.incubate_serum(&laboratory, 1_010).unwrap();
    assert_eq!(me.distillable_yield, 5 + 10 * 2_222 * 10);
    assert_eq!(me.last_distillation_timestamp, 1_010);
}

#[test]
fn accrual_uses_guaranteed_minimum_rate() {
    let mut laboratory = lab(0);
    laboratory.reaction_formula.reward_rate_per_pill = 1;
    laboratory.reaction_formula.min_daily_yield_bps = 100_000_000;
    // 100000 * 100000000 / 10000 / 86400 = 11574 per second
    let mut me = scientist(key(10), None);
    me.owned_pill = 2;
    me.last_distillation_timestamp = 100;
    me.incubate_serum(&laboratory, 103).unwrap();
    assert_eq!(me.distillable_yield, 2 * 11_574 * 3);
}

#[test]
fn accrual_skips_when_clock_goes_back_or_nothing_is_held() {
    let laboratory = lab(0);
    let mut me = scientist(key(10), None);
    me.owned_pill = 10;
    me.last_distillation_timestamp = 1_000;
    me.distillable_yield = 7;
    me.incubate_serum(&laboratory, 900).unwrap();
    assert_eq!(me.distillable_yield, 7);
    assert_eq!(me.last_distillation_timestamp, 1_000);
    me.owned_pill = 0;
    me.incubate_serum(&laboratory, 2_000).unwrap();
    assert_eq!(me.distillable_yield, 7);
    assert_eq!(me.last_distillation_timestamp, 1_000);
}

#[test]
fn accrual_overflow_is_refused() {
    let laboratory = lab(0);
    let mut me = scientist(key(10), None);
    me.owned_pill = u64::MAX as u128;
    me.last_distillation_timestamp = 0;
    let r = me.incubate_serum(&laboratory, 1_000_000);
    assert_eq!(r, Err(CrazySolError::Overflow));
    assert_eq!(me.distillable_yield, 0);
}

#[test]
fn projection_is_repeatable_and_matches_accrual() {
    let laboratory = lab(0);
    let mut me = scientist(key(10), None);
    me.owned_pill = 3;
    me.last_distillation_timestamp = 50;
    me.distillable_yield = 11;
    let first = handle_get_distillable_output(&laboratory, &me, 80).unwrap();
    let second = handle_get_distillable_output(&laboratory, &me, 80).unwrap();
    assert_eq!(first, second);
    assert_eq!(first, 11 + 3 * 2_222 * 30);
    assert_eq!(me.distillable_yield, 11);
    me.incubate_serum(&laboratory, 80).unwrap();
    assert_eq!(me.distillable_yield, first);
    assert_eq!(handle_get_distillable_output(&laboratory, &me, 80).unwrap(), first);
}

#[test]
fn marginal_price() {
    let laboratory = lab(0);
    assert_eq!(handle_get_pill_potency(&laboratory, &reactor(0, 1_000)), Ok(130_000));
    assert_eq!(handle_get_pill_potency(&laboratory, &reactor(0, u128::MAX)), Err(CrazySolError::Overflow));
}

#[test]
fn harvest_capped_by_pool_floor() {
    let laboratory = lab(100);
    let mut pool = reactor(0, 1_000);
    let mut stats = experiment();
    let mut me = scientist(key(10), None);
    me.owned_pill = 1_000;
    me.last_distillation_timestamp = 500;
    me.distillable_yield = 600_000;
    // balance 400,000 above a floor of 100,000: only 300,000 can be paid
    let out = handle_distill(&laboratory, &mut pool, &mut stats, &mut me, 400_000, 100_000, 500).unwrap();
    assert_eq!(me.distillable_yield, 300_000);
    assert_eq!(out.event.fee, 3_000);
    assert_eq!(out.event.distilled_yield, 297_000);
    assert_eq!(me.owned_pill, 900);
    assert_eq!(pool.pill_supply, 900);
    assert_eq!(stats.total_pills_vaporized, 100);
    assert_eq!(stats.total_yield_distilled, 297_000);
    assert_eq!(stats.total_dev_fees_collected, 3_000);
    assert_eq!(me.earned_sol, 297_000);
    let amounts: Vec<u64> = out.transfers.iter().map(|t| t.amount).collect();
    assert_eq!(amounts, vec![3_000, 297_000]);
    assert!(matches!(out.transfers[1].to, Payee::Participant(k) if k == key(10)));
}

#[test]
fn harvest_of_everything_when_pool_suffices() {
    let laboratory = lab(0);
    let mut pool = reactor(0, 50);
    let mut stats = experiment();
    let mut me = scientist(key(10), None);
    me.owned_pill = 50;
    me.last_distillation_timestamp = 500;
    me.distillable_yield = 1_000;
    let out = handle_distill(&laboratory, &mut pool, &mut stats, &mut me, 10_000_000, 1_000, 500).unwrap();
    assert_eq!(me.distillable_yield, 0);
    assert_eq!(out.event.distilled_yield, 1_000);
    assert_eq!(out.transfers.len(), 1);
    assert_eq!(me.owned_pill, 45);
    assert_eq!(pool.pill_supply, 45);
}

#[test]
fn harvest_with_nothing_pending_is_refused() {
    let laboratory = lab(0);
    let mut pool = reactor(0, 0);
    let mut stats = experiment();
    let mut me = scientist(key(10), None);
    let r = handle_distill(&laboratory, &mut pool, &mut stats, &mut me, 10_000_000, 1_000, 500);
    assert_eq!(r.err(), Some(CrazySolError::NoYield));
}

#[test]
fn reinvest_buys_units_with_first_bonus() {
    let laboratory = lab(0);
    let mut pool = reactor(1_000_000_000, 1_000);
    let mut stats = experiment();
    let mut me = scientist(key(10), None);
    me.owned_pill = 1_000;
    me.last_distillation_timestamp = 77;
    me.distillable_yield = 1_000_000;
    let event = handle_mutate(&laboratory, &mut pool, &mut stats, &mut me, 77).unwrap();
    // 1,000,000 at supply 1,000 buys 7 units; the first reinvestment adds 15% of them (1)
    assert_eq!(event.new_pill, 8);
    assert_eq!(event.mutated_yield, 1_000_000);
    assert_eq!(me.owned_pill, 1_008);
    assert_eq!(pool.pill_supply, 1_008);
    assert_eq!(me.distillable_yield, 0);
    assert!(me.is_first_mutation_done);
    assert_eq!(me.owned_pcrazy, 50_000_000);
    assert_eq!(stats.total_mutations_performed, 1_000_000);
    let r = handle_mutate(&laboratory, &mut pool, &mut stats, &mut me, 77);
    assert_eq!(r.err(), Some(CrazySolError::NoYield));
}

#[test]
fn reinvest_grant_capped_at_pool() {
    let laboratory = lab(0);
    let mut pool = reactor(7, 0);
    let mut stats = experiment();
    let mut me = scientist(key(10), None);
    me.distillable_yield = 1_000_000;
    handle_mutate(&laboratory, &mut pool, &mut stats, &mut me, 77).unwrap();
    assert_eq!(me.owned_pcrazy, 7);
    assert_eq!(pool.owned_pcrazy, 0);
}

#[test]
fn streak_escalates_then_resets() {
    let laboratory = lab(0);
    let mut pool = reactor(1_000_000_000, 0);
    let mut me = scientist(key(10), None);
    let t0: i64 = 1_700_000_000;
    let e = handle_incubation_period(&laboratory, &mut pool, &mut me, t0).unwrap();
    assert_eq!((e.reward, e.current_streak), (10_000_000, 1));
    let t1 = t0 + 25 * 3_600;
    let e = handle_incubation_period(&laboratory, &mut pool, &mut me, t1).unwrap();
    assert_eq!((e.reward, e.current_streak), (20_000_000, 2));
    let t2 = t1 + 100 * 3_600;
    let e = handle_incubation_period(&laboratory, &mut pool, &mut me, t2).unwrap();
    assert_eq!((e.reward, e.current_streak), (10_000_000, 1));
    assert_eq!(me.owned_pcrazy, 40_000_000);
    assert_eq!(pool.owned_pcrazy, 960_000_000);
    assert_eq!(me.last_streak_timestamp, t2);
}

#[test]
fn streak_cooldown_and_empty_pool() {
    let laboratory = lab(0);
    let mut pool = reactor(1_000_000_000, 0);
    let mut me = scientist(key(10), None);
    handle_incubation_period(&laboratory, &mut pool, &mut me, 1_000_000).unwrap();
    let r = handle_incubation_period(&laboratory, &mut pool, &mut me, 1_000_000 + 86_399);
    assert_eq!(r.err(), Some(CrazySolError::CooldownActive));
    let mut empty = reactor(0, 0);
    let mut other = scientist(key(11), None);
    let r = handle_incubation_period(&laboratory, &mut empty, &mut other, 1_000_000);
    assert_eq!(r.err(), Some(CrazySolError::InsufficientpCRAZY));
    let mut low = reactor(3, 0);
    let e = handle_incubation_period(&laboratory, &mut low, &mut other, 1_000_000).unwrap();
    assert_eq!(e.reward, 3);
}

#[test]
fn streak_closed_after_launch() {
    let mut laboratory = lab(0);
    laboratory.innoculation_happened = true;
    let mut pool = reactor(1_000_000_000, 0);
    let mut me = scientist(key(10), None);
    let r = handle_incubation_period(&laboratory, &mut pool, &mut me, 5);
    assert_eq!(r.err(), Some(CrazySolError::InnoculationAlreadyHappened));
}

#[test]
fn registration_walks_three_levels() {
    let laboratory = lab(0);
    let mut pool = reactor(1_000_000_000, 0);
    let mut stats = experiment();
    let (a, b, c, d) = (key(20), key(21), key(22), key(23));
    let mut records = vec![record(c, Some(b)), record(b, Some(a)), record(a, None)];
    let out = handle_register_scientist(
        &laboratory,
        &mut stats,
        &mut pool,
        &mut records,
        &program(),
        d,
        String::from("newton"),
        Some(c),
    )
    .unwrap();
    assert_eq!(records[0].state.test_subjects_count, 1);
    assert_eq!(records[1].state.specimens_count, 1);
    assert_eq!(records[2].state.samples_count, 1);
    assert_eq!(records[0].state.owned_pcrazy, 200_000_000);
    assert_eq!(pool.owned_pcrazy, 800_000_000);
    assert_eq!(out.event.recruiter_reward, Some(200_000_000));
    assert_eq!(stats.total_scientists, 1);
    assert_eq!(stats.total_scientists_recruited, 1);
    assert_eq!(out.scientist_state.owner, d);
    assert_eq!(out.scientist_state.recruiter, Some(c));
    assert_eq!(out.scientist_state.owned_pill, 0);
    assert_eq!(out.scientist_state.username, "newton");
}

#[test]
fn registration_without_referrer() {
    let laboratory = lab(0);
    let mut pool = reactor(5, 0);
    let mut stats = experiment();
    let mut records: Vec<ReferralRecord> = Vec::new();
    let out = handle_register_scientist(&laboratory, &mut stats, &mut pool, &mut records, &program(), key(30), String::new(), None)
        .unwrap();
    assert_eq!(out.event.recruiter_reward, None);
    assert_eq!(stats.total_scientists, 1);
    assert_eq!(stats.total_scientists_recruited, 0);
    assert_eq!(pool.owned_pcrazy, 5);
}

#[test]
fn registration_refusals() {
    let laboratory = lab(0);
    let mut pool = reactor(0, 0);
    let mut stats = experiment();
    let mut records: Vec<ReferralRecord> = Vec::new();
    let long = "x".repeat(129);
    let r = handle_register_scientist(&laboratory, &mut stats, &mut pool, &mut records, &program(), key(30), long, None);
    assert_eq!(r.err(), Some(CrazySolError::UsernameTooLong));
    let max = "x".repeat(128);
    let r = handle_register_scientist(&laboratory, &mut stats, &mut pool, &mut records, &program(), key(30), max, None);
    assert!(r.is_ok());
    let r = handle_register_scientist(&laboratory, &mut stats, &mut pool, &mut records, &program(), key(30), String::new(), Some(key(30)));
    assert_eq!(r.err(), Some(CrazySolError::InvalidRecruiter));
    let r = handle_register_scientist(&laboratory, &mut stats, &mut pool, &mut records, &program(), key(30), String::new(), Some(key(31)));
    assert_eq!(r.err(), Some(CrazySolError::MissingAccount));
    let mut only_parent = vec![record(key(31), Some(key(32)))];
    let r = handle_register_scientist(&laboratory, &mut stats, &mut pool, &mut only_parent, &program(), key(30), String::new(), Some(key(31)));
    assert_eq!(r.err(), Some(CrazySolError::MissingAccount));
}

#[test]
fn registration_reward_capped_at_empty_pool() {
    let laboratory = lab(0);
    let mut pool = reactor(0, 0);
    let mut stats = experiment();
    let mut records = vec![record(key(31), None)];
    let out = handle_register_scientist(&laboratory, &mut stats, &mut pool, &mut records, &program(), key(30), String::new(), Some(key(31)))
        .unwrap();
    assert_eq!(out.event.recruiter_reward, None);
    assert_eq!(records[0].state.test_subjects_count, 1);
    assert_eq!(records[0].state.owned_pcrazy, 0);
}

#[test]
fn supply_matches_holdings_after_a_run() {
    let laboratory = lab(0);
    let mut pool = reactor(1_000_000_000, 0);
    let mut stats = experiment();
    let mut alice = scientist(key(40), None);
    let mut bob = scientist(key(41), None);
    let mut none: Vec<ReferralRecord> = Vec::new();
    handle_inject(&laboratory, &mut pool, &mut stats, &mut alice, &mut none, &program(), 100_000_000, 1_000).unwrap();
    handle_inject(&laboratory, &mut pool, &mut stats, &mut bob, &mut none, &program(), 70_000_000, 1_000).unwrap();
    assert_eq!(pool.pill_supply, alice.owned_pill + bob.owned_pill);
    handle_mutate(&laboratory, &mut pool, &mut stats, &mut alice, 1_100).unwrap();
    assert_eq!(pool.pill_supply, alice.owned_pill + bob.owned_pill);
    handle_distill(&laboratory, &mut pool, &mut stats, &mut bob, 1_000_000_000, 1_000, 1_200).unwrap();
    assert_eq!(pool.pill_supply, alice.owned_pill + bob.owned_pill);
}

#[test]
fn accrual_far_backward_clock_is_a_no_op() {
    let laboratory = lab(0);
    let mut me = scientist(key(10), None);
    me.owned_pill = 10;
    me.last_distillation_timestamp = 1;
    me.distillable_yield = 9;
    assert_eq!(me.incubate_serum(&laboratory, i64::MIN), Ok(()));
    assert_eq!(me.distillable_yield, 9);
    assert_eq!(me.last_distillation_timestamp, 1);
    assert_eq!(handle_get_distillable_output(&laboratory, &me, i64::MIN), Ok(9));
}

#[test]
fn accrual_far_forward_clock_with_zero_rate() {
    let mut laboratory = lab(0);
    laboratory.reaction_formula.reward_rate_per_pill = 0;
    laboratory.reaction_formula.min_daily_yield_bps = 0;
    let mut me = scientist(key(10), None);
    me.owned_pill = 10;
    me.last_distillation_timestamp = i64::MIN;
    me.distillable_yield = 4;
    assert_eq!(me.incubate_serum(&laboratory, i64::MAX), Ok(()));
    assert_eq!(me.distillable_yield, 4);
    assert_eq!(me.last_distillation_timestamp, i64::MAX);
}

#[test]
fn streak_far_apart_claims() {
    let laboratory = lab(0);
    let mut pool = reactor(1_000_000_000, 0);
    let mut me = scientist(key(10), None);
    me.last_streak_timestamp = i64::MIN;
    me.current_streak = 7;
    let e = handle_incubation_period(&laboratory, &mut pool, &mut me, i64::MAX).unwrap();
    assert_eq!((e.reward, e.current_streak), (10_000_000, 1));
    let r = handle_incubation_period(&laboratory, &mut pool, &mut me, i64::MIN);
    assert_eq!(r.err(), Some(CrazySolError::CooldownActive));
    assert_eq!(me.last_streak_timestamp, i64::MAX);
}

#[test]
fn refused_deposit_changes_no_record() {
    let laboratory = lab(0);
    let mut pool = reactor(1_000_000_000, 0);
    let mut stats = experiment();
    let (b, c, d) = (key(21), key(22), key(23));
    let mut me = scientist(d, Some(c));
    me.owned_pill = 5;
    me.last_distillation_timestamp = 10;
    let mut records = vec![record(c, Some(b))];
    let r = handle_inject(&laboratory, &mut pool, &mut stats, &mut me, &mut records, &program(), 100_000_000, 1_000);
    assert_eq!(r.err(), Some(CrazySolError::MissingAccount));
    assert_eq!(records[0].state.earned_sol, 0);
    assert_eq!(records[0].state.earned_sol_from_research, 0);
    assert_eq!(me.distillable_yield, 0);
    assert_eq!(me.last_distillation_timestamp, 10);
    assert_eq!(stats.total_research_fees_collected, 0);
    assert_eq!(pool.owned_pcrazy, 1_000_000_000);
}

#[test]
fn refused_registration_changes_no_record() {
    let laboratory = lab(0);
    let mut pool = reactor(1_000_000_000, 0);
    let mut stats = experiment();
    let (b, c, d) = (key(21), key(22), key(23));
    let mut records = vec![record(c, Some(b))];
    let r = handle_register_scientist(&laboratory, &mut stats, &mut pool, &mut records, &program(), d, String::new(), Some(c));
    assert_eq!(r.err(), Some(CrazySolError::MissingAccount));
    assert_eq!(records[0].state.test_subjects_count, 0);
    assert_eq!(records[0].state.owned_pcrazy, 0);
    assert_eq!(pool.owned_pcrazy, 1_000_000_000);
    assert_eq!(stats.total_scientists, 0);
    assert_eq!(stats.total_scientists_recruited, 0);
}
