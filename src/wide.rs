//! A 256-bit unsigned magnitude for the bonding-curve solver, held as four
//! little-endian 64-bit limbs. The arithmetic itself is done by the `uint`
//! machinery behind `primitive_types::U256`, whose value has the same layout.
use primitive_types::U256;
use vstd::prelude::*;

verus! {

/// 2^64, the weight of one limb.
pub open spec fn limb_base() -> int {
    0x1_0000_0000_0000_0000
}

/// 2^256, one past the largest 256-bit magnitude.
pub open spec fn wide_limit() -> int {
    u128_limit() * u128_limit()
}

/// 2^128, one past the largest `u128`.
pub open spec fn u128_limit() -> int {
    u128::MAX + 1
}

#[derive(Clone, Copy)]
pub struct Wide {
    pub limbs: [u64; 4],
}

impl Wide {
    /// The number the limbs stand for, least significant limb first.
    pub open spec fn value(self) -> int {
        self.limbs[0] + self.limbs[1] * limb_base() + self.limbs[2] * u128_limit()
            + self.limbs[3] * (limb_base() * u128_limit())
    }
}

pub proof fn lemma_wide_range(w: Wide)
    ensures
        0 <= w.value() < wide_limit(),
{
    let k = limb_base();
    let (a, b, c, d) = (w.limbs[0] as int, w.limbs[1] as int, w.limbs[2] as int, w.limbs[3] as int);
    assert(u128_limit() == k * k);
    assert(0 <= a + b * k + c * (k * k) + d * (k * (k * k)) < (k * k) * (k * k)) by (nonlinear_arith)
        requires
            0 <= a < k,
            0 <= b < k,
            0 <= c < k,
            0 <= d < k,
            k > 0,
    {
        assert(b * k <= (k - 1) * k);
        assert(c * (k * k) <= (k - 1) * (k * k));
        assert(d * (k * (k * k)) <= (k - 1) * (k * (k * k)));
    }
}

/// Relies on `From<u128> for U256` (uint): the low two limbs take the value.
#[verifier::external_body]
pub(crate) fn wide_from_u128(x: u128) -> (r: Wide)
    ensures
        r.value() == x,
{
    Wide { limbs: U256::from(x).0 }
}

/// Relies on `U256::as_u128` (uint): exact when the value is below 2^128,
/// a panic otherwise.
#[verifier::external_body]
pub(crate) fn wide_to_u128(w: &Wide) -> (r: u128)
    requires
        w.value() < u128_limit(),
    ensures
        r == w.value(),
{
    U256(w.limbs).as_u128()
}

/// Relies on `U256::checked_add` (uint): `None` exactly when the sum needs
/// more than 256 bits.
#[verifier::external_body]
pub(crate) fn wide_checked_add(a: &Wide, b: &Wide) -> (r: Option<Wide>)
    ensures
        r is None <==> a.value() + b.value() >= wide_limit(),
        r matches Some(s) ==> s.value() == a.value() + b.value(),
{
    match U256(a.limbs).checked_add(U256(b.limbs)) {
        Some(s) => Some(Wide { limbs: s.0 }),
        None => None,
    }
}

/// Relies on `U256::checked_mul` (uint): `None` exactly when the product
/// needs more than 256 bits.
#[verifier::external_body]
pub(crate) fn wide_checked_mul(a: &Wide, b: &Wide) -> (r: Option<Wide>)
    ensures
        r is None <==> a.value() * b.value() >= wide_limit(),
        r matches Some(p) ==> p.value() == a.value() * b.value(),
{
    match U256(a.limbs).checked_mul(U256(b.limbs)) {
        Some(p) => Some(Wide { limbs: p.0 }),
        None => None,
    }
}

/// Relies on `Sub for U256` (uint): exact difference, a panic on underflow.
#[verifier::external_body]
pub(crate) fn wide_sub(a: &Wide, b: &Wide) -> (r: Wide)
    requires
        b.value() <= a.value(),
    ensures
        r.value() == a.value() - b.value(),
{
    Wide { limbs: (U256(a.limbs) - U256(b.limbs)).0 }
}

/// Relies on `Div for U256` (uint): the floored quotient, a panic on a zero
/// divisor.
#[verifier::external_body]
pub(crate) fn wide_div(a: &Wide, b: &Wide) -> (r: Wide)
    requires
        b.value() > 0,
    ensures
        r.value() == a.value() / b.value(),
{
    Wide { limbs: (U256(a.limbs) / U256(b.limbs)).0 }
}

/// Relies on `Shr for U256` (uint): a shift right by one bit halves, rounding
/// down.
#[verifier::external_body]
pub(crate) fn wide_half(a: &Wide) -> (r: Wide)
    ensures
        r.value() == a.value() / 2,
{
    Wide { limbs: (U256(a.limbs) >> 1u32).0 }
}

/// Relies on `PartialOrd for U256` (uint), which compares from the most
/// significant limb down.
#[verifier::external_body]
pub(crate) fn wide_lt(a: &Wide, b: &Wide) -> (r: bool)
    ensures
        r == (a.value() < b.value()),
{
    U256(a.limbs) < U256(b.limbs)
}

} // verus!
