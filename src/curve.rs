//! The linear bonding curve: price(x) = p0 + m * x per unit at supply x.
use crate::wide::{
    lemma_wide_range, u128_limit, wide_checked_add, wide_checked_mul, wide_div, wide_from_u128,
    wide_half, wide_limit, wide_lt, wide_sub, wide_to_u128, Wide,
};
use vstd::arithmetic::div_mod::{
    lemma_div_is_ordered, lemma_div_is_ordered_by_denominator, lemma_fundamental_div_mod,
};
use vstd::prelude::*;

verus! {

/// `r` is the integer square root of `v`: the largest `r` with `r * r <= v`.
pub open spec fn is_isqrt(v: int, r: int) -> bool {
    0 <= r && r * r <= v && v < (r + 1) * (r + 1)
}

/// One step of Newton's iteration for the square root of `v` from `x`.
pub open spec fn newton_step(v: int, x: int) -> int {
    (v / x + x) / 2
}

/// Twice the price integral from `supply` to `supply + n`, that is
/// 2 * (n * (p0 + m * supply) + m * n * n / 2), kept doubled so that it stays
/// an exact integer.
pub open spec fn doubled_cost(supply: int, n: int, p0: int, m: int) -> int {
    2 * n * (p0 + m * supply) + m * n * n
}

/// `n` is the number of units that `deposit` buys at `supply`: `n` units cost
/// no more than the deposit and `n + 1` units cost more.
pub open spec fn buys(supply: int, deposit: int, p0: int, m: int, n: int) -> bool {
    doubled_cost(supply, n, p0, m) <= 2 * deposit < doubled_cost(supply, n + 1, p0, m)
}

/// The number of units that `deposit` buys at `supply`; the curve solver
/// shows that such a number exists whenever its radicand fits, and
/// `lemma_buys_unique` that it is the only one.
pub open spec fn units_for(supply: int, deposit: int, p0: int, m: int) -> int {
    choose|n: int| n >= 0 && buys(supply, deposit, p0, m, n)
}

/// The quantity under the square root of the closed-form solution:
/// (p0 + m * supply)^2 + 2 * m * deposit.
pub open spec fn curve_radicand(supply: int, deposit: int, p0: int, m: int) -> int {
    (p0 + m * supply) * (p0 + m * supply) + 2 * m * deposit
}

proof fn lemma_newton_stays_above(v: int, x: int)
    requires
        v >= 0,
        x >= 1,
    ensures
        (newton_step(v, x) + 1) * (newton_step(v, x) + 1) > v,
{
    let q = v / x;
    let n = newton_step(v, x);
    let s = n + 1;
    lemma_fundamental_div_mod(v, x);
    assert(v < (q + 1) * x) by (nonlinear_arith)
        requires
            v == x * q + v % x,
            0 <= v % x < x,
    ;
    assert(2 * s >= q + x + 1);
    if s * s <= v {
        assert((2 * s - x) * x <= s * s) by (nonlinear_arith);
        assert((q + 1) * x <= (2 * s - x) * x) by (nonlinear_arith)
            requires
                q + 1 <= 2 * s - x,
                x >= 1,
        ;
    }
}

proof fn lemma_newton_descends(v: int, z: int)
    requires
        v >= 0,
        z >= 1,
        z * z > v,
    ensures
        newton_step(v, z) < z,
{
    let q = v / z;
    lemma_fundamental_div_mod(v, z);
    assert(q * z <= v) by (nonlinear_arith)
        requires
            v == z * q + v % z,
            0 <= v % z,
    ;
    assert(q < z) by (nonlinear_arith)
        requires
            q * z <= v,
            v < z * z,
            z >= 1,
    {
        if q >= z {
            assert(q * z >= z * z);
        }
    }
}

proof fn lemma_newton_bounded(v: int, x: int)
    requires
        v >= 4,
        1 <= x <= v / 2 + 1,
    ensures
        newton_step(v, x) <= v / 2 + 1,
{
    if x >= 2 {
        lemma_div_is_ordered_by_denominator(v, 2, x);
    }
}

proof fn lemma_newton_fits(v: int, x: int)
    requires
        0 <= v < wide_limit(),
        1 <= x <= v / 2 + 1,
        (x + 1) * (x + 1) > v,
    ensures
        v / x + x < wide_limit(),
{
    let q = v / x;
    let ghost k = u128_limit();
    assert(wide_limit() == k * k);
    if x >= k {
        lemma_div_is_ordered_by_denominator(v, k, x);
        lemma_fundamental_div_mod(v, k);
        assert(v / k < k) by (nonlinear_arith)
            requires
                v == k * (v / k) + v % k,
                0 <= v % k,
                v < k * k,
                k > 0,
        {
            if v / k >= k {
                assert(k * (v / k) >= k * k);
            }
        }
    } else {
        lemma_fundamental_div_mod(v, x);
        assert(q <= x + 2) by (nonlinear_arith)
            requires
                v == x * q + v % x,
                0 <= v % x,
                v < (x + 1) * (x + 1),
                x >= 1,
        {
            if q >= x + 3 {
                assert(x * q >= x * (x + 3));
            }
        }
        assert(2 * x + 2 < k * k) by (nonlinear_arith)
            requires
                x < k,
                k > 2,
        ;
    }
}

/// Integer square root by Newton's method: the candidate starts at
/// `value / 2 + 1` and is replaced by `(value / x + x) / 2` for as long as
/// that keeps decreasing it.
pub fn sqrt_u256(value: &Wide) -> (r: Wide)
    ensures
        is_isqrt(value.value(), r.value()),
{
    let v = Ghost(value.value());
    proof {
        lemma_wide_range(*value);
    }
    let zero = wide_from_u128(0);
    if !wide_lt(&zero, value) {
        return zero;
    }
    let four = wide_from_u128(4);
    if wide_lt(value, &four) {
        return wide_from_u128(1);
    }
    let one = wide_from_u128(1);
    let half = wide_half(value);
    let first = wide_checked_add(&half, &one);
    let mut x = first.unwrap();
    let mut z = *value;
    proof {
        assert((x.value() + 1) * (x.value() + 1) > v@) by (nonlinear_arith)
            requires
                x.value() == v@ / 2 + 1,
                v@ >= 4,
        ;
        assert((z.value() + 1) * (z.value() + 1) > v@) by (nonlinear_arith)
            requires
                z.value() == v@,
                v@ >= 4,
        ;
    }
    while wide_lt(&x, &z)
        invariant
            v@ == value.value(),
            4 <= v@ < wide_limit(),
            1 <= x.value() <= v@ / 2 + 1,
            z.value() >= 1,
            (x.value() + 1) * (x.value() + 1) > v@,
            (z.value() + 1) * (z.value() + 1) > v@,
            (z.value() == v@ && x.value() == v@ / 2 + 1) || x.value() == newton_step(
                v@,
                z.value(),
            ),
        decreases z.value(),
    {
        z = x;
        proof {
            lemma_newton_fits(v@, x.value());
            lemma_newton_stays_above(v@, x.value());
            lemma_newton_bounded(v@, x.value());
        }
        let q = wide_div(value, &x);
        let s = wide_checked_add(&q, &x);
        x = wide_half(&s.unwrap());
        proof {
            let n = x.value();
            lemma_wide_range(x);
            if n == 0 {
                assert((n + 1) * (n + 1) == 1) by (nonlinear_arith)
                    requires
                        n == 0,
                ;
            }
        }
    }
    proof {
        if z.value() * z.value() > v@ {
            lemma_newton_descends(v@, z.value());
        }
    }
    z
}

proof fn lemma_units_bracket(a: int, m: int, d: int, root: int, u: int)
    requires
        m >= 1,
        a >= 0,
        d >= 0,
        a <= root,
        root * root <= a * a + 2 * m * d < (root + 1) * (root + 1),
        u == (root - a) / m,
    ensures
        2 * u * a + m * u * u <= 2 * d < 2 * (u + 1) * a + m * (u + 1) * (u + 1),
{
    let t = root - a;
    lemma_fundamental_div_mod(t, m);
    let w = m * u;
    assert(0 <= w <= t < w + m) by (nonlinear_arith)
        requires
            t == m * u + t % m,
            0 <= t % m < m,
            t >= 0,
            w == m * u,
            m >= 1,
    {
        assert(u >= 0);
    }
    assert(m * (2 * u * a + m * u * u) == (a + w) * (a + w) - a * a) by (nonlinear_arith)
        requires
            w == m * u,
    ;
    assert((a + w) * (a + w) <= root * root) by (nonlinear_arith)
        requires
            0 <= a + w <= root,
    ;
    assert(2 * u * a + m * u * u <= 2 * d) by (nonlinear_arith)
        requires
            m * (2 * u * a + m * u * u) <= 2 * m * d,
            m >= 1,
    ;
    let w1 = m * (u + 1);
    assert(w1 == w + m) by (nonlinear_arith)
        requires
            w == m * u,
            w1 == m * (u + 1),
    ;
    assert(m * (2 * (u + 1) * a + m * (u + 1) * (u + 1)) == (a + w1) * (a + w1) - a * a)
        by (nonlinear_arith)
        requires
            w1 == m * (u + 1),
    ;
    assert((a + w1) * (a + w1) >= (root + 1) * (root + 1)) by (nonlinear_arith)
        requires
            a + w1 >= root + 1,
            root >= 0,
    ;
    assert(2 * (u + 1) * a + m * (u + 1) * (u + 1) > 2 * d) by (nonlinear_arith)
        requires
            m * (2 * (u + 1) * a + m * (u + 1) * (u + 1)) > 2 * m * d,
            m >= 1,
    ;
}

proof fn lemma_doubled_cost_monotone(supply: int, p0: int, m: int, n1: int, n2: int)
    requires
        supply >= 0,
        p0 >= 0,
        m >= 0,
        0 <= n1 <= n2,
    ensures
        doubled_cost(supply, n1, p0, m) <= doubled_cost(supply, n2, p0, m),
{
    let a = p0 + m * supply;
    assert(a >= 0) by (nonlinear_arith)
        requires
            a == p0 + m * supply,
            supply >= 0,
            p0 >= 0,
            m >= 0,
    ;
    assert(2 * n1 * a + m * n1 * n1 <= 2 * n2 * a + m * n2 * n2) by (nonlinear_arith)
        requires
            a >= 0,
            m >= 0,
            0 <= n1 <= n2,
    ;
}

/// The amount a deposit buys is unique: no two unit counts both fit it.
pub proof fn lemma_buys_unique(supply: u128, deposit: u128, p0: u32, m: u8, n1: u128, n2: u128)
    requires
        buys(supply as int, deposit as int, p0 as int, m as int, n1 as int),
        buys(supply as int, deposit as int, p0 as int, m as int, n2 as int),
    ensures
        n1 == n2,
{
    lemma_buys_unique_int(supply as int, deposit as int, p0 as int, m as int, n1 as int, n2 as int);
}

proof fn lemma_buys_unique_int(supply: int, deposit: int, p0: int, m: int, n1: int, n2: int)
    requires
        supply >= 0,
        p0 >= 0,
        m >= 0,
        n1 >= 0,
        n2 >= 0,
        buys(supply, deposit, p0, m, n1),
        buys(supply, deposit, p0, m, n2),
    ensures
        n1 == n2,
{
    if n1 < n2 {
        lemma_doubled_cost_monotone(supply, p0, m, n1 + 1, n2);
    } else if n2 < n1 {
        lemma_doubled_cost_monotone(supply, p0, m, n2 + 1, n1);
    }
}

/// A larger deposit at the same supply never mints fewer units: when the
/// curve solver answers both `d1 <= d2`, the unit count for `d1` is at most
/// the one for `d2`.
pub proof fn lemma_units_monotone_in_deposit(
    supply: u128,
    d1: u128,
    d2: u128,
    p0: u32,
    m: u8,
    n1: u128,
    n2: u128,
)
    requires
        d1 <= d2,
        buys(supply as int, d1 as int, p0 as int, m as int, n1 as int),
        buys(supply as int, d2 as int, p0 as int, m as int, n2 as int),
    ensures
        n1 <= n2,
{
    if n1 > n2 {
        lemma_doubled_cost_monotone(supply as int, p0 as int, m as int, n2 + 1, n1 as int);
    }
}

/// Units minted for `deposit` at the current `supply` on the curve with
/// intercept `p0` and slope `m`, from the closed form
/// (sqrt((p0 + m * supply)^2 + 2 * m * deposit) - (p0 + m * supply)) / m,
/// with the square root and the quotient rounded down. The radicand is held
/// in 256 bits; `None` when it does not fit.
pub fn compute_rate_of_centrifugation(supply: u128, deposit: u128, p0: u32, m: u8) -> (r: Option<
    u128,
>)
    requires
        m > 0,
    ensures
        r is None <==> curve_radicand(supply as int, deposit as int, p0 as int, m as int)
            >= wide_limit(),
        r matches Some(n) ==> buys(supply as int, deposit as int, p0 as int, m as int, n as int),
        r matches Some(n) ==> n == units_for(supply as int, deposit as int, p0 as int, m as int),
{
    let ghost k = u128_limit();
    proof {
        assert(wide_limit() == k * k);
    }
    let s = wide_from_u128(supply);
    let slope = wide_from_u128(m as u128);
    let intercept = wide_from_u128(p0 as u128);
    let d = wide_from_u128(deposit);
    let twice_slope = wide_from_u128(2 * (m as u128));
    proof {
        assert(m as int * supply as int <= 255 * k) by (nonlinear_arith)
            requires
                m <= 255,
                supply < k,
        ;
        assert(2 * m as int * deposit as int <= 510 * k) by (nonlinear_arith)
            requires
                m <= 255,
                deposit < k,
        ;
    }
    let ms = wide_checked_mul(&slope, &s).unwrap();
    let a = wide_checked_add(&intercept, &ms).unwrap();
    let av = Ghost(a.value());
    let aa = match wide_checked_mul(&a, &a) {
        Some(p) => p,
        None => {
            proof {
                assert(2 * m as int * deposit as int >= 0) by (nonlinear_arith)
                    requires
                        m >= 0,
                        deposit >= 0,
                ;
            }
            return None;
        },
    };
    let md = wide_checked_mul(&twice_slope, &d).unwrap();
    let radicand = match wide_checked_add(&aa, &md) {
        Some(x) => x,
        None => return None,
    };
    let root = sqrt_u256(&radicand);
    let rv = Ghost(root.value());
    proof {
        lemma_wide_range(root);
        assert(av@ <= rv@) by (nonlinear_arith)
            requires
                av@ >= 0,
                rv@ >= 0,
                av@ * av@ <= radicand.value(),
                radicand.value() < (rv@ + 1) * (rv@ + 1),
        {
            if av@ > rv@ {
                assert(av@ * av@ >= (rv@ + 1) * (rv@ + 1));
            }
        }
        assert(rv@ < k) by (nonlinear_arith)
            requires
                rv@ * rv@ <= radicand.value(),
                radicand.value() < k * k,
                rv@ >= 0,
                k > 0,
        {
            if rv@ >= k {
                assert(rv@ * rv@ >= k * k);
            }
        }
    }
    let excess = wide_sub(&root, &a);
    let units = wide_div(&excess, &slope);
    proof {
        lemma_div_is_ordered(excess.value(), rv@, m as int);
        assert(rv@ / (m as int) <= rv@) by (nonlinear_arith)
            requires
                rv@ >= 0,
                m >= 1,
        {
            lemma_fundamental_div_mod(rv@, m as int);
        }
        lemma_units_bracket(av@, m as int, deposit as int, rv@, units.value());
    }
    let n = wide_to_u128(&units);
    proof {
        let (si, di, pi, mi) = (supply as int, deposit as int, p0 as int, m as int);
        assert(n >= 0 && buys(si, di, pi, mi, n as int));
        let c = units_for(si, di, pi, mi);
        assert(c >= 0 && buys(si, di, pi, mi, c));
        lemma_buys_unique_int(si, di, pi, mi, c, n as int);
    }
    Some(n)
}

} // verus!
