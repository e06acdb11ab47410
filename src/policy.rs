//! Fee and grant rules shared by the transitions.
use vstd::prelude::*;

verus! {

/// The protocol tax on `amount` at `bps` basis points, rounded down.
pub open spec fn tax_of(amount: int, bps: int) -> int {
    amount * bps / 10_000
}

/// A fixed grant capped at what the pool still holds.
pub open spec fn capped(grant: int, available: int) -> int {
    if available >= grant {
        grant
    } else {
        available
    }
}

/// Units after the one-time bonus of `pct` percent, when it is still owed.
pub open spec fn with_bonus(units: int, pct: int, owed: bool) -> int {
    if owed {
        units + units * pct / 100
    } else {
        units
    }
}

/// Whether the bonus step stays within `u128`.
pub open spec fn bonus_fits(units: int, pct: int, owed: bool) -> bool {
    !owed || (units * pct <= u128::MAX && units + units * pct / 100 <= u128::MAX)
}

/// `tax_of` computed with checked arithmetic; `None` when the product
/// overflows.
pub fn checked_tax(amount: u64, bps: u16) -> (r: Option<u64>)
    ensures
        r is None <==> amount * bps > u64::MAX,
        r matches Some(t) ==> t == tax_of(amount as int, bps as int),
{
    match amount.checked_mul(bps as u64) {
        Some(v) => Some(v / 10_000),
        None => None,
    }
}

/// `capped` on executable values.
pub fn capped_grant(grant: u64, available: u64) -> (r: u64)
    ensures
        r == capped(grant as int, available as int),
        r <= available,
{
    if available >= grant {
        grant
    } else {
        available
    }
}

/// `with_bonus` with checked arithmetic; `None` exactly when a step
/// overflows.
pub fn checked_with_bonus(units: u128, pct: u128, owed: bool) -> (r: Option<u128>)
    ensures
        r is None <==> !bonus_fits(units as int, pct as int, owed),
        r matches Some(v) ==> v == with_bonus(units as int, pct as int, owed),
{
    if !owed {
        return Some(units);
    }
    let bonus = match units.checked_mul(pct) {
        Some(v) => v / 100,
        None => return None,
    };
    units.checked_add(bonus)
}

} // verus!
