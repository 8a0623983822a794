//! Integer helpers: Euclidean and truncating division, saturation.
use vstd::prelude::*;

verus! {

/// Clamps a mathematical integer into the range of `i64`.
pub open spec fn clamp_i64(x: int) -> int {
    if x > i64::MAX {
        i64::MAX as int
    } else if x < i64::MIN {
        i64::MIN as int
    } else {
        x
    }
}

/// Clamping leaves a value in the range of `i64` as it is and sends one above or below
/// the range to its upper or lower bound.
pub proof fn lemma_clamp_i64(x: int)
    ensures
        i64::MIN <= x <= i64::MAX ==> clamp_i64(x) == x,
        x > i64::MAX ==> clamp_i64(x) == i64::MAX,
        x < i64::MIN ==> clamp_i64(x) == i64::MIN,
        i64::MIN <= clamp_i64(x) <= i64::MAX,
{
}

/// Quotient of a division that rounds toward zero (Rust's `/`), for a positive divisor.
pub open spec fn trunc_div(x: int, d: int) -> int
    recommends
        d > 0,
{
    if x >= 0 {
        x / d
    } else {
        -((-x) / d)
    }
}

/// Remainder that goes with `trunc_div` (Rust's `%`): it has the sign of `x`.
pub open spec fn trunc_rem(x: int, d: int) -> int
    recommends
        d > 0,
{
    x - d * trunc_div(x, d)
}

/// `x.saturating_mul(y)`: the product, clamped to the bounds of `i64`.
pub fn saturating_mul_i64(x: i64, y: i64) -> (r: i64)
    ensures
        r == clamp_i64(x * y),
        i64::MIN <= x * y <= i64::MAX ==> r == x * y,
        x * y > i64::MAX ==> r == i64::MAX,
        x * y < i64::MIN ==> r == i64::MIN,
{
    match x.checked_mul(y) {
        Some(p) => p,
        None => {
            if (x < 0) == (y < 0) {
                assert(x * y > 0) by (nonlinear_arith)
                    requires
                        x * y > i64::MAX || x * y < i64::MIN,
                        (x < 0) == (y < 0),
                ;
                i64::MAX
            } else {
                assert(x * y < 0) by (nonlinear_arith)
                    requires
                        x * y > i64::MAX || x * y < i64::MIN,
                        (x < 0) != (y < 0),
                ;
                i64::MIN
            }
        },
    }
}

/// `x.div_euclid(d)` for a positive divisor.
pub fn div_euclid_i64(x: i64, d: i64) -> (q: i64)
    requires
        d > 0,
    ensures
        q == x / d,
{
    proof {
        lemma_div_euclid_bounds(x as int, d as int);
    }
    match x.checked_div_euclid(d) {
        Some(q) => q,
        None => 0,
    }
}

/// `x.rem_euclid(d)` for a positive divisor.
pub fn rem_euclid_i64(x: i64, d: i64) -> (r: i64)
    requires
        d > 0,
    ensures
        r == x % d,
        0 <= r < d,
{
    match x.checked_rem_euclid(d) {
        Some(r) => r,
        None => 0,
    }
}

/// Truncating division splits `x` into a quotient and a remainder that carry the sign of
/// `x`, the remainder smaller than the divisor in magnitude.
pub proof fn lemma_trunc_divrem(x: int, d: int)
    requires
        d > 0,
    ensures
        x == d * trunc_div(x, d) + trunc_rem(x, d),
        x >= 0 ==> 0 <= trunc_rem(x, d) < d && 0 <= trunc_div(x, d) <= x,
        x <= 0 ==> -d < trunc_rem(x, d) <= 0 && x <= trunc_div(x, d) <= 0,
        x >= 0 ==> trunc_div(x, d) == x / d && trunc_rem(x, d) == x % d,
{
    vstd::arithmetic::div_mod::lemma_fundamental_div_mod(x, d);
    vstd::arithmetic::div_mod::lemma_mod_bound(x, d);
    vstd::arithmetic::div_mod::lemma_fundamental_div_mod(-x, d);
    vstd::arithmetic::div_mod::lemma_mod_bound(-x, d);
    lemma_div_euclid_bounds(x, d);
    lemma_div_euclid_bounds(-x, d);
    let q = (-x) / d;
    assert(d * (-q) == -(d * q)) by (nonlinear_arith);
}

/// The Euclidean quotient by a positive divisor lies between zero and the dividend.
pub proof fn lemma_div_euclid_bounds(x: int, d: int)
    requires
        d > 0,
    ensures
        x >= 0 ==> 0 <= x / d <= x,
        x < 0 ==> x <= x / d < 0,
{
    vstd::arithmetic::div_mod::lemma_fundamental_div_mod(x, d);
    vstd::arithmetic::div_mod::lemma_mod_bound(x, d);
    if x >= 0 {
        vstd::arithmetic::div_mod::lemma_div_pos_is_pos(x, d);
        vstd::arithmetic::div_mod::lemma_div_is_ordered_by_denominator(x, 1, d);
    } else {
        assert(x / d < 0) by (nonlinear_arith)
            requires x == d * (x / d) + x % d, 0 <= x % d < d, x < 0, d > 0;
        assert(x <= x / d) by (nonlinear_arith)
            requires x == d * (x / d) + x % d, 0 <= x % d < d, x / d < 0, d > 0;
    }
}

/// Truncating quotient and remainder of `x` by a positive divisor, as Rust's `/` and `%` give them.
pub fn divrem_i64(x: i64, d: i64) -> (qr: (i64, i64))
    requires
        d > 0,
    ensures
        qr.0 == trunc_div(x as int, d as int),
        qr.1 == trunc_rem(x as int, d as int),
{
    proof {
        vstd::arithmetic::div_mod::lemma_fundamental_div_mod(x as int, d as int);
        vstd::arithmetic::div_mod::lemma_fundamental_div_mod(-(x as int), d as int);
        let q = (-(x as int)) / (d as int);
        assert((d as int) * (-q) == -((d as int) * q)) by (nonlinear_arith);
    }
    let r = match x.checked_rem(d) {
        Some(r) => r,
        None => 0,
    };
    (x / d, r)
}

} // verus!
