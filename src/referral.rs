//! The referral cascade: deposit-time rewards routed up the chain of
//! referrers, and recruit counters raised at registration.
use crate::address::{find_record_address, program_address, Address};
use crate::constants::{research_reward_percentages, research_reward_table, SCIENTIST_SEED};
use crate::errors::CrazySolError;
use crate::states::ScientistState;
use vstd::prelude::*;

verus! {

/// A participant record supplied by the caller for the referral walk,
/// together with the key it is stored under.
#[derive(Clone, Debug)]
pub struct ReferralRecord {
    pub key: Address,
    pub state: ScientistState,
}

/// Where a movement of the base resource goes.
#[derive(Clone, Copy, Debug)]
pub enum Payee {
    FeeRecipient,
    Referrer(Address),
    ExternalReactor,
    Participant(Address),
}

/// A movement of the base resource that the host carries out once the
/// transition is committed.
#[derive(Clone, Copy, Debug)]
pub struct Transfer {
    pub to: Payee,
    pub amount: u64,
}

/// Where the deposit-time walk stands between two slots.
pub struct RouteState {
    /// The referrer the next non-zero slot pays, if the chain goes on.
    pub current: Option<Address>,
    /// Position of the next supplied record to use.
    pub next: int,
    /// The supplied records, with the rewards credited so far.
    pub records: Seq<ReferralRecord>,
    /// The research-fee counter.
    pub fees: int,
    /// Transfers decided so far.
    pub paid: Seq<Transfer>,
}

/// Whether `rec` is the record of `owner`: stored under the derived key and
/// owned by that identity.
pub open spec fn is_record_of(rec: ReferralRecord, owner: Address, program: Seq<u8>) -> bool {
    program_address(SCIENTIST_SEED@, owner.bytes@, program) == Some(rec.key.bytes@)
        && rec.state.owner == owner
}

/// A referrer's record after it is credited `amount` of research earnings.
pub open spec fn credited(rec: ReferralRecord, amount: int) -> ReferralRecord {
    ReferralRecord {
        state: ScientistState {
            earned_sol: (rec.state.earned_sol + amount) as u64,
            earned_sol_from_research: (rec.state.earned_sol_from_research + amount) as u64,
            ..rec.state
        },
        ..rec
    }
}

/// One slot of the deposit-time split: `remaining * pct / 100` goes to the
/// current referrer, which then hands the walk to its own referrer, or to the
/// fee recipient once the chain has ended. A zero amount skips the slot.
pub open spec fn route_slot(program: Seq<u8>, remaining: int, pct: int, st: RouteState) -> Result<
    RouteState,
    CrazySolError,
> {
    let amount = remaining * pct / 100;
    if remaining * pct > u64::MAX {
        Err(CrazySolError::Overflow)
    } else if amount == 0 {
        Ok(st)
    } else {
        match st.current {
            Some(k) => {
                let rec = st.records[st.next];
                if st.next >= st.records.len() {
                    Err(CrazySolError::MissingAccount)
                } else if !is_record_of(rec, k, program) {
                    Err(CrazySolError::InvalidRecruiter)
                } else if rec.state.earned_sol + amount > u64::MAX
                    || rec.state.earned_sol_from_research + amount > u64::MAX || st.fees + amount
                    > u64::MAX {
                    Err(CrazySolError::Overflow)
                } else {
                    Ok(
                        RouteState {
                            current: rec.state.recruiter,
                            next: st.next + 1,
                            records: st.records.update(st.next, credited(rec, amount)),
                            fees: st.fees + amount,
                            paid: st.paid.push(Transfer { to: Payee::Referrer(k), amount: amount as u64 }),
                        },
                    )
                }
            },
            None => {
                if st.fees + amount > u64::MAX {
                    Err(CrazySolError::Overflow)
                } else {
                    Ok(
                        RouteState {
                            fees: st.fees + amount,
                            paid: st.paid.push(Transfer { to: Payee::FeeRecipient, amount: amount as u64 }),
                            ..st
                        },
                    )
                }
            },
        }
    }
}

/// The walk over the slots from `i` on.
pub open spec fn route_from(
    program: Seq<u8>,
    remaining: int,
    pcts: Seq<u64>,
    st: RouteState,
    i: int,
) -> Result<RouteState, CrazySolError>
    decreases pcts.len() - i,
{
    if i < 0 || i >= pcts.len() {
        Ok(st)
    } else {
        match route_slot(program, remaining, pcts[i] as int, st) {
            Ok(next) => route_from(program, remaining, pcts, next, i + 1),
            Err(e) => Err(e),
        }
    }
}

/// The whole deposit-time walk over the referral shares.
pub open spec fn research_routing(
    program: Seq<u8>,
    remaining: int,
    first: Option<Address>,
    records: Seq<ReferralRecord>,
    fees: int,
) -> Result<RouteState, CrazySolError> {
    route_from(
        program,
        remaining,
        research_reward_percentages(),
        RouteState { current: first, next: 0, records, fees, paid: seq![] },
        0,
    )
}

/// Sum of the amounts of a list of transfers.
pub open spec fn total_paid(paid: Seq<Transfer>) -> int
    decreases paid.len(),
{
    if paid.len() == 0 {
        0
    } else {
        total_paid(paid.drop_last()) + paid.last().amount
    }
}

/// The new research earnings of one credited referrer.
#[derive(Clone, Copy, Debug)]
pub struct Credit {
    pub earned_sol: u64,
    pub earned_sol_from_research: u64,
}

/// The supplied records with the first `credits.len()` of them given the
/// earnings in `credits`, position by position; the others as they were.
pub open spec fn with_credits(records: Seq<ReferralRecord>, credits: Seq<Credit>) -> Seq<
    ReferralRecord,
> {
    Seq::new(
        records.len(),
        |j: int|
            if j < credits.len() {
                ReferralRecord {
                    state: ScientistState {
                        earned_sol: credits[j].earned_sol,
                        earned_sol_from_research: credits[j].earned_sol_from_research,
                        ..records[j].state
                    },
                    ..records[j]
                }
            } else {
                records[j]
            },
    )
}

/// What the deposit-time walk decided.
pub struct ResearchRouting {
    /// One transfer per non-zero slot, in slot order.
    pub transfers: Vec<Transfer>,
    /// The research-fee counter after the walk.
    pub research_fees: u64,
    /// Sum of the slot amounts.
    pub total: u64,
    /// New earnings of the referrers paid, nearest first.
    pub credits: Vec<Credit>,
}

/// Decides the referral shares of `remaining`: walks the chain from
/// `first_recruiter` through the supplied records in order, checks each
/// against its derived key and owner, and raises the research-fee counter by
/// every slot amount. The records are only read; `apply_credits` writes the
/// earnings once the whole transition has succeeded.
///
/// The outcome is the one `research_routing` describes.
pub fn route_research_rewards(
    remaining: u64,
    first_recruiter: Option<Address>,
    records: &Vec<ReferralRecord>,
    program_id: &Address,
    research_fees: u64,
) -> (r: Result<ResearchRouting, CrazySolError>)
    ensures
        (r matches Ok(out) ==> {
            let spec_r = research_routing(
                program_id.bytes@,
                remaining as int,
                first_recruiter,
                records@,
                research_fees as int,
            );
            &&& spec_r is Ok
            &&& out.credits@.len() <= records@.len()
            &&& with_credits(records@, out.credits@) == spec_r->Ok_0.records
            &&& out.transfers@ == spec_r->Ok_0.paid
            &&& out.research_fees == spec_r->Ok_0.fees
            &&& out.total == total_paid(spec_r->Ok_0.paid)
            &&& out.total == out.research_fees - research_fees
            &&& out.total * 10 <= remaining
        }),
        (r matches Err(e) ==> research_routing(
            program_id.bytes@,
            remaining as int,
            first_recruiter,
            records@,
            research_fees as int,
        ) == Err::<RouteState, CrazySolError>(e)),
{
    let pcts = research_reward_table();
    let ghost program = program_id.bytes@;
    let mut current = first_recruiter;
    let mut next: usize = 0;
    let mut fees = research_fees;
    let mut total: u64 = 0;
    let mut transfers: Vec<Transfer> = Vec::new();
    let mut credits: Vec<Credit> = Vec::new();
    let mut i: usize = 0;
    proof {
        assert(with_credits(records@, credits@) =~= records@);
    }
    while i < pcts.len()
        invariant
            pcts@ == research_reward_percentages(),
            program == program_id.bytes@,
            0 <= i <= pcts.len(),
            next <= records@.len(),
            credits@.len() == next,
            fees == research_fees + total,
            total * 100 <= remaining * (if i == 0 {
                0int
            } else if i == 1 {
                5int
            } else if i == 2 {
                8int
            } else {
                10int
            }),
            total == total_paid(transfers@),
            research_routing(program, remaining as int, first_recruiter, records@, research_fees as int)
                == route_from(
                program,
                remaining as int,
                pcts@,
                RouteState {
                    current,
                    next: next as int,
                    records: with_credits(records@, credits@),
                    fees: fees as int,
                    paid: transfers@,
                },
                i as int,
            ),
        decreases pcts.len() - i,
    {
        let ghost st = RouteState {
            current,
            next: next as int,
            records: with_credits(records@, credits@),
            fees: fees as int,
            paid: transfers@,
        };
        let pct = pcts[i];
        proof {
            assert(route_from(program, remaining as int, pcts@, st, i as int) == match route_slot(
                program,
                remaining as int,
                pct as int,
                st,
            ) {
                Ok(n) => route_from(program, remaining as int, pcts@, n, i + 1),
                Err(e) => Err(e),
            });
        }
        let amount = match remaining.checked_mul(pct) {
            Some(v) => v / 100,
            None => return Err(CrazySolError::Overflow),
        };
        proof {
            assert(pct == 5 || pct == 3 || pct == 2);
            assert(amount * 100 <= remaining * pct);
        }
        if amount == 0 {
            i = i + 1;
            continue;
        }
        match current {
            Some(k) => {
                if next >= records.len() {
                    return Err(CrazySolError::MissingAccount);
                }
                proof {
                    assert(st.records[next as int] == records@[next as int]);
                }
                let expected = match find_record_address(SCIENTIST_SEED, &k, program_id) {
                    Some(a) => a,
                    None => return Err(CrazySolError::InvalidRecruiter),
                };
                if !records[next].key.same_as(&expected) {
                    return Err(CrazySolError::InvalidRecruiter);
                }
                if !records[next].state.owner.same_as(&k) {
                    return Err(CrazySolError::InvalidRecruiter);
                }
                let earned = match records[next].state.earned_sol.checked_add(amount) {
                    Some(v) => v,
                    None => return Err(CrazySolError::Overflow),
                };
                let earned_research = match records[next].state.earned_sol_from_research.checked_add(amount) {
                    Some(v) => v,
                    None => return Err(CrazySolError::Overflow),
                };
                fees = match fees.checked_add(amount) {
                    Some(v) => v,
                    None => return Err(CrazySolError::Overflow),
                };
                let ghost before = credits@;
                credits.push(Credit { earned_sol: earned, earned_sol_from_research: earned_research });
                proof {
                    assert(with_credits(records@, credits@) =~= with_credits(records@, before).update(
                        next as int,
                        credited(records@[next as int], amount as int),
                    ));
                }
                current = records[next].state.recruiter;
                next = next + 1;
                transfers.push(Transfer { to: Payee::Referrer(k), amount });
            },
            None => {
                fees = match fees.checked_add(amount) {
                    Some(v) => v,
                    None => return Err(CrazySolError::Overflow),
                };
                transfers.push(Transfer { to: Payee::FeeRecipient, amount });
            },
        }
        proof {
            assert(transfers@.drop_last() =~= st.paid);
        }
        total = total + amount;
        i = i + 1;
    }
    Ok(ResearchRouting { transfers, research_fees: fees, total, credits })
}

/// Writes the earnings decided by `route_research_rewards` into the records.
pub fn apply_credits(records: &mut Vec<ReferralRecord>, credits: &Vec<Credit>)
    requires
        credits@.len() <= old(records)@.len(),
    ensures
        final(records)@ == with_credits(old(records)@, credits@),
{
    let mut j: usize = 0;
    while j < credits.len()
        invariant
            0 <= j <= credits@.len(),
            credits@.len() <= records@.len(),
            records@.len() == old(records)@.len(),
            forall|k: int|
                0 <= k < records@.len() ==> #[trigger] records@[k] == if k < j {
                    with_credits(old(records)@, credits@)[k]
                } else {
                    old(records)@[k]
                },
        decreases credits@.len() - j,
    {
        records[j].state.earned_sol = credits[j].earned_sol;
        records[j].state.earned_sol_from_research = credits[j].earned_sol_from_research;
        j = j + 1;
    }
    proof {
        assert(records@ =~= with_credits(old(records)@, credits@));
    }
}

} // verus!
