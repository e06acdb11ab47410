//! Registration of a participant, with the recruit counters of up to three
//! referrers above it.
use crate::address::Address;
use crate::constants::{MAX_USERNAME_LENGTH, PCRAZY_RECRUITMENT_REWARDS};
use crate::errors::CrazySolError;
use crate::events::RegisterScientistEvent;
use crate::policy::{capped, capped_grant};
use crate::referral::{is_record_of, ReferralRecord};
use crate::address::find_record_address;
use crate::constants::SCIENTIST_SEED;
use crate::security::{operational_error, verify_laboratory_initialized_and_operational};
use crate::states::{ExperimentState, LaboratoryState, ReactorState, ScientistState};
use vstd::prelude::*;

verus! {

/// How many referrer levels a registration reaches.
pub const RECRUIT_DEPTH: usize = 3;

/// The recruit counter a referrer at `depth` above the new participant
/// keeps: direct, second-tier or third-tier.
pub open spec fn recruit_counter(rec: ReferralRecord, depth: int) -> int {
    if depth == 0 {
        rec.state.test_subjects_count as int
    } else if depth == 1 {
        rec.state.specimens_count as int
    } else {
        rec.state.samples_count as int
    }
}

/// The referrer's record with its counter for `depth` raised by one.
pub open spec fn recruited(rec: ReferralRecord, depth: int) -> ReferralRecord {
    if depth == 0 {
        ReferralRecord {
            state: ScientistState {
                test_subjects_count: (rec.state.test_subjects_count + 1) as u32,
                ..rec.state
            },
            ..rec
        }
    } else if depth == 1 {
        ReferralRecord {
            state: ScientistState { specimens_count: (rec.state.specimens_count + 1) as u32, ..rec.state },
            ..rec
        }
    } else {
        ReferralRecord {
            state: ScientistState { samples_count: (rec.state.samples_count + 1) as u32, ..rec.state },
            ..rec
        }
    }
}

/// The walk up the chain from level `depth` on: each referrer's supplied
/// record must be present, stored under its derived key and owned by it; its
/// counter for the level rises by one, and the walk goes on to its own
/// referrer until the chain ends or three levels are done.
pub open spec fn recruit_from(
    program: Seq<u8>,
    current: Option<Address>,
    records: Seq<ReferralRecord>,
    depth: int,
) -> Result<Seq<ReferralRecord>, CrazySolError>
    decreases 3 - depth,
{
    if depth < 0 || depth >= 3 {
        Ok(records)
    } else {
        match current {
            None => Ok(records),
            Some(k) => {
                if depth >= records.len() {
                    Err(CrazySolError::MissingAccount)
                } else if !is_record_of(records[depth], k, program) {
                    Err(CrazySolError::InvalidRecruiter)
                } else if recruit_counter(records[depth], depth) + 1 > u32::MAX {
                    Err(CrazySolError::Overflow)
                } else {
                    recruit_from(
                        program,
                        records[depth].state.recruiter,
                        records.update(depth, recruited(records[depth], depth)),
                        depth + 1,
                    )
                }
            },
        }
    }
}

/// The supplied records with the counters of the first `levels` of them
/// raised, each for its own level.
pub open spec fn recruited_records(records: Seq<ReferralRecord>, levels: int) -> Seq<
    ReferralRecord,
> {
    Seq::new(
        records.len(),
        |j: int|
            if j < levels {
                recruited(records[j], j)
            } else {
                records[j]
            },
    )
}

/// Walks up the chain above a new participant whose direct referrer is
/// `first`, over the supplied records, nearest first, and checks each level
/// without writing anything. On success it returns how many levels the walk
/// reached; `recruit_from` gives the records those levels produce.
pub fn walk_recruiters(first: Address, records: &Vec<ReferralRecord>, program_id: &Address) -> (r:
    Result<usize, CrazySolError>)
    ensures
        (r matches Ok(levels) ==> {
            &&& 1 <= levels <= RECRUIT_DEPTH
            &&& levels <= records@.len()
            &&& recruit_from(program_id.bytes@, Some(first), records@, 0) == Ok::<
                Seq<ReferralRecord>,
                CrazySolError,
            >(recruited_records(records@, levels as int))
            &&& forall|j: int|
                0 <= j < levels ==> recruit_counter(#[trigger] records@[j], j) + 1 <= u32::MAX
        }),
        (r matches Err(e) ==> recruit_from(program_id.bytes@, Some(first), records@, 0)
            == Err::<Seq<ReferralRecord>, CrazySolError>(e)),
{
    let ghost program = program_id.bytes@;
    let mut current: Option<Address> = Some(first);
    let mut depth: usize = 0;
    proof {
        assert(recruited_records(records@, 0) =~= records@);
    }
    while depth < RECRUIT_DEPTH
        invariant
            program == program_id.bytes@,
            0 <= depth <= RECRUIT_DEPTH,
            depth <= records@.len(),
            depth == 0 ==> current == Some(first),
            forall|j: int| 0 <= j < depth ==> recruit_counter(#[trigger] records@[j], j) + 1 <= u32::MAX,
            recruit_from(program, Some(first), records@, 0) == recruit_from(
                program,
                current,
                recruited_records(records@, depth as int),
                depth as int,
            ),
        ensures
            current is None || depth >= RECRUIT_DEPTH,
        decreases RECRUIT_DEPTH - depth,
    {
        let ghost cur = recruited_records(records@, depth as int);
        proof {
            assert(recruit_from(program, current, cur, depth as int) == match current {
                None => Ok(cur),
                Some(k) => {
                    if depth >= cur.len() {
                        Err(CrazySolError::MissingAccount)
                    } else if !is_record_of(cur[depth as int], k, program) {
                        Err(CrazySolError::InvalidRecruiter)
                    } else if recruit_counter(cur[depth as int], depth as int) + 1 > u32::MAX {
                        Err(CrazySolError::Overflow)
                    } else {
                        recruit_from(
                            program,
                            cur[depth as int].state.recruiter,
                            cur.update(depth as int, recruited(cur[depth as int], depth as int)),
                            depth + 1,
                        )
                    }
                },
            });
        }
        let k = match current {
            Some(k) => k,
            None => break,
        };
        if depth >= records.len() {
            return Err(CrazySolError::MissingAccount);
        }
        proof {
            assert(cur[depth as int] == records@[depth as int]);
        }
        let expected = match find_record_address(SCIENTIST_SEED, &k, program_id) {
            Some(a) => a,
            None => return Err(CrazySolError::InvalidRecruiter),
        };
        if !records[depth].key.same_as(&expected) || !records[depth].state.owner.same_as(&k) {
            return Err(CrazySolError::InvalidRecruiter);
        }
        let fits = if depth == 0 {
            records[depth].state.test_subjects_count < u32::MAX
        } else if depth == 1 {
            records[depth].state.specimens_count < u32::MAX
        } else {
            records[depth].state.samples_count < u32::MAX
        };
        if !fits {
            return Err(CrazySolError::Overflow);
        }
        proof {
            assert(recruited_records(records@, depth + 1) =~= cur.update(
                depth as int,
                recruited(cur[depth as int], depth as int),
            ));
        }
        current = records[depth].state.recruiter;
        depth = depth + 1;
    }
    proof {
        let cur = recruited_records(records@, depth as int);
        if current is Some {
            assert(depth == RECRUIT_DEPTH);
        }
        assert(recruit_from(program, current, cur, depth as int) == Ok::<
            Seq<ReferralRecord>,
            CrazySolError,
        >(cur));
    }
    Ok(depth)
}

/// Raises the counters of the first `levels` supplied records, as decided by
/// `walk_recruiters`.
pub fn apply_recruits(records: &mut Vec<ReferralRecord>, levels: usize)
    requires
        levels <= RECRUIT_DEPTH,
        levels <= old(records)@.len(),
        forall|j: int| 0 <= j < levels ==> recruit_counter(#[trigger] old(records)@[j], j) + 1 <= u32::MAX,
    ensures
        final(records)@ == recruited_records(old(records)@, levels as int),
{
    let mut j: usize = 0;
    while j < levels
        invariant
            0 <= j <= levels <= RECRUIT_DEPTH,
            levels <= records@.len(),
            records@.len() == old(records)@.len(),
            forall|i: int| 0 <= i < levels ==> recruit_counter(#[trigger] old(records)@[i], i) + 1 <= u32::MAX,
            forall|i: int|
                0 <= i < records@.len() ==> #[trigger] records@[i] == if i < j {
                    recruited(old(records)@[i], i)
                } else {
                    old(records)@[i]
                },
        decreases levels - j,
    {
        assert(recruit_counter(old(records)@[j as int], j as int) + 1 <= u32::MAX);
        if j == 0 {
            records[j].state.test_subjects_count = records[j].state.test_subjects_count + 1;
        } else if j == 1 {
            records[j].state.specimens_count = records[j].state.specimens_count + 1;
        } else {
            records[j].state.samples_count = records[j].state.samples_count + 1;
        }
        j = j + 1;
    }
    proof {
        assert(records@ =~= recruited_records(old(records)@, levels as int));
    }
}

/// Length of a username in bytes of its UTF-8 encoding.
pub open spec fn username_len(s: String) -> usize {
    vstd::utf8::encode_utf8(s@).len() as usize
}

/// The new participant's record: every number zero and every flag unset.
pub open spec fn fresh_record(owner: Address, username: String, recruiter: Option<Address>) -> ScientistState {
    ScientistState {
        owner,
        username,
        recruiter,
        owned_pill: 0,
        owned_pcrazy: 0,
        is_first_injection_done: false,
        is_first_mutation_done: false,
        sol_injected: 0,
        last_streak_timestamp: 0,
        current_streak: 0,
        last_distillation_timestamp: 0,
        distillable_yield: 0,
        test_subjects_count: 0,
        specimens_count: 0,
        samples_count: 0,
        earned_sol: 0,
        earned_sol_from_research: 0,
    }
}

/// What a registration does to the shared records, or the error that
/// refuses it: the counters, the pool, the supplied referrer records, and the
/// grant paid to the direct referrer, if any.
pub struct RegisterPlan {
    pub experiment: ExperimentState,
    pub reactor: ReactorState,
    pub records: Seq<ReferralRecord>,
    pub reward: Option<u64>,
}

/// Registration of `scientist`: the guards, the username bound, then, with a
/// referrer that is not the registrant itself, the walk up the chain and the
/// pre-launch grant to the direct referrer, capped at the pool's reward
/// tokens; last the counters.
pub open spec fn register_plan(
    lab: LaboratoryState,
    exp: ExperimentState,
    reactor: ReactorState,
    records: Seq<ReferralRecord>,
    program: Seq<u8>,
    scientist: Address,
    username: String,
    recruiter: Option<Address>,
) -> Result<RegisterPlan, CrazySolError> {
    if operational_error(lab) is Some {
        Err(operational_error(lab)->0)
    } else if username_len(username) > MAX_USERNAME_LENGTH {
        Err(CrazySolError::UsernameTooLong)
    } else {
        match recruiter {
            None => {
                if exp.total_scientists + 1 > u64::MAX {
                    Err(CrazySolError::Overflow)
                } else {
                    Ok(
                        RegisterPlan {
                            experiment: ExperimentState {
                                total_scientists: (exp.total_scientists + 1) as u64,
                                ..exp
                            },
                            reactor,
                            records,
                            reward: None,
                        },
                    )
                }
            },
            Some(k) => {
                let walked = recruit_from(program, Some(k), records, 0);
                let grant = if lab.innoculation_happened {
                    0
                } else {
                    capped(PCRAZY_RECRUITMENT_REWARDS as int, reactor.owned_pcrazy as int)
                };
                let direct = walked->Ok_0[0];
                if k == scientist {
                    Err(CrazySolError::InvalidRecruiter)
                } else if walked is Err {
                    Err(walked->Err_0)
                } else if direct.state.owned_pcrazy + grant > u64::MAX
                    || exp.total_scientists_recruited + 1 > u64::MAX || exp.total_scientists + 1
                    > u64::MAX {
                    Err(CrazySolError::Overflow)
                } else {
                    Ok(
                        RegisterPlan {
                            experiment: ExperimentState {
                                total_scientists: (exp.total_scientists + 1) as u64,
                                total_scientists_recruited: (exp.total_scientists_recruited + 1) as u64,
                                ..exp
                            },
                            reactor: ReactorState {
                                owned_pcrazy: (reactor.owned_pcrazy - grant) as u64,
                                ..reactor
                            },
                            records: walked->Ok_0.update(
                                0,
                                ReferralRecord {
                                    state: ScientistState {
                                        owned_pcrazy: (direct.state.owned_pcrazy + grant) as u64,
                                        ..direct.state
                                    },
                                    ..direct
                                },
                            ),
                            reward: if grant > 0 {
                                Some(grant as u64)
                            } else {
                                None
                            },
                        },
                    )
                }
            },
        }
    }
}

/// A committed registration: the new record and the event.
pub struct RegisterOutcome {
    pub scientist_state: ScientistState,
    pub event: RegisterScientistEvent,
}

/// Registers `scientist` under `username`, referred by `recruiter` if given.
///
/// `referral_records` are the records of the referrer, its referrer and that
/// one's referrer, as far as the chain goes. The result is the one
/// `register_plan` gives, with a fresh record for the new participant; on an
/// error no record changes.
pub fn handle_register_scientist(
    laboratory_state: &LaboratoryState,
    experiment_state: &mut ExperimentState,
    reactor_state: &mut ReactorState,
    referral_records: &mut Vec<ReferralRecord>,
    program_id: &Address,
    scientist: Address,
    username: String,
    recruiter: Option<Address>,
) -> (r: Result<RegisterOutcome, CrazySolError>)
    ensures
        r is Err ==> *final(experiment_state) == *old(experiment_state) && *final(reactor_state)
            == *old(reactor_state) && final(referral_records)@ == old(referral_records)@,
        ({
            let plan = register_plan(
                *laboratory_state,
                *old(experiment_state),
                *old(reactor_state),
                old(referral_records)@,
                program_id.bytes@,
                scientist,
                username,
                recruiter,
            );
            &&& plan is Err ==> r == Err::<RegisterOutcome, CrazySolError>(plan->Err_0)
            &&& plan is Ok ==> r is Ok
        }),
        (r matches Ok(out) ==> {
            let plan = register_plan(
                *laboratory_state,
                *old(experiment_state),
                *old(reactor_state),
                old(referral_records)@,
                program_id.bytes@,
                scientist,
                username,
                recruiter,
            )->Ok_0;
            &&& out.scientist_state == fresh_record(scientist, username, recruiter)
            &&& *final(experiment_state) == plan.experiment
            &&& *final(reactor_state) == plan.reactor
            &&& final(referral_records)@ == plan.records
            &&& out.event.scientist == scientist
            &&& out.event.recruiter == recruiter
            &&& out.event.recruiter_reward == plan.reward
        }),
{
    verify_laboratory_initialized_and_operational(laboratory_state)?;
    if username.as_str().len() > MAX_USERNAME_LENGTH {
        return Err(CrazySolError::UsernameTooLong);
    }
    let mut recruiter_reward: Option<u64> = None;
    let mut recruited_total = experiment_state.total_scientists_recruited;
    let mut levels: usize = 0;
    let mut grant: u64 = 0;
    let mut direct_pcrazy: u64 = 0;
    if let Some(k) = recruiter {
        if k.same_as(&scientist) {
            return Err(CrazySolError::InvalidRecruiter);
        }
        levels = walk_recruiters(k, referral_records, program_id)?;
        grant = if laboratory_state.innoculation_happened {
            0
        } else {
            capped_grant(PCRAZY_RECRUITMENT_REWARDS, reactor_state.owned_pcrazy)
        };
        direct_pcrazy = match referral_records[0].state.owned_pcrazy.checked_add(grant) {
            Some(v) => v,
            None => return Err(CrazySolError::Overflow),
        };
        recruited_total = match recruited_total.checked_add(1) {
            Some(v) => v,
            None => return Err(CrazySolError::Overflow),
        };
        if grant > 0 {
            recruiter_reward = Some(grant);
        }
    }
    let total = match experiment_state.total_scientists.checked_add(1) {
        Some(v) => v,
        None => return Err(CrazySolError::Overflow),
    };
    if recruiter.is_some() {
        apply_recruits(referral_records, levels);
        referral_records[0].state.owned_pcrazy = direct_pcrazy;
        reactor_state.owned_pcrazy = reactor_state.owned_pcrazy - grant;
    }
    experiment_state.total_scientists_recruited = recruited_total;
    experiment_state.total_scientists = total;
    let scientist_state = ScientistState {
        owner: scientist,
        username,
        recruiter,
        owned_pill: 0,
        owned_pcrazy: 0,
        is_first_injection_done: false,
        is_first_mutation_done: false,
        sol_injected: 0,
        last_streak_timestamp: 0,
        current_streak: 0,
        last_distillation_timestamp: 0,
        distillable_yield: 0,
        test_subjects_count: 0,
        specimens_count: 0,
        samples_count: 0,
        earned_sol: 0,
        earned_sol_from_research: 0,
    };
    let event = RegisterScientistEvent { scientist, recruiter, recruiter_reward };
    Ok(RegisterOutcome { scientist_state, event })
}

} // verus!
