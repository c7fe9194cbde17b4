//! Fixed-point scalars.
//!
//! An `i64` counts millionths: of a world unit for lengths, of a radian for
//! angles, of one for the components of a direction. Every operation takes
//! the exact result, rounds it toward zero where it is not whole, and clamps
//! it to the range of `i64`, so no operation overflows or fails.
use vstd::prelude::*;

verus! {

/// Raw units per whole unit.
pub const UNIT: i64 = 1_000_000;

/// The value nearest to `x` that an `i64` holds.
pub open spec fn sat(x: int) -> i64 {
    if x < i64::MIN {
        i64::MIN
    } else if x > i64::MAX {
        i64::MAX
    } else {
        x as i64
    }
}

/// The quotient of `n` by `d`, rounded toward zero.
pub open spec fn quot(n: int, d: int) -> int
    recommends
        d != 0,
{
    if d > 0 {
        if n >= 0 {
            n / d
        } else {
            -((-n) / d)
        }
    } else {
        if n >= 0 {
            -(n / (-d))
        } else {
            (-n) / (-d)
        }
    }
}

/// The clamped sum.
pub open spec fn spec_add_sat(a: i64, b: i64) -> i64 {
    sat(a + b)
}

/// The clamped difference.
pub open spec fn spec_sub_sat(a: i64, b: i64) -> i64 {
    sat(a - b)
}

/// The clamped negation: only `i64::MIN` is changed by the clamp.
pub open spec fn spec_neg_sat(a: i64) -> i64 {
    sat(-a)
}

/// The fixed-point product: `a * b / UNIT`, rounded toward zero and clamped.
pub open spec fn spec_mul_fx(a: i64, b: i64) -> i64 {
    sat(quot(a * b, UNIT as int))
}

/// The fixed-point quotient: `a * UNIT / b`, rounded toward zero and clamped.
pub open spec fn spec_div_fx(a: i64, b: i64) -> i64
    recommends
        b != 0,
{
    sat(quot(a * UNIT, b as int))
}

/// The larger of `a` and `lo`, but no more than `hi`.
pub open spec fn spec_clamp(a: i64, lo: i64, hi: i64) -> i64
    recommends
        lo <= hi,
{
    if a < lo {
        lo
    } else if a > hi {
        hi
    } else {
        a
    }
}

/// Whether `r` is the integer square root of `n`: the largest `r` whose
/// square is at most `n`.
pub open spec fn is_isqrt(n: int, r: int) -> bool {
    &&& 0 <= r
    &&& r * r <= n
    &&& n < (r + 1) * (r + 1)
}

/// Clamps a wide intermediate result to `i64`.
pub fn clamp_wide(x: i128) -> (r: i64)
    ensures
        r == sat(x as int),
{
    if x < i64::MIN as i128 {
        i64::MIN
    } else if x > i64::MAX as i128 {
        i64::MAX
    } else {
        x as i64
    }
}

#[verifier::when_used_as_spec(spec_add_sat)]
pub fn add_sat(a: i64, b: i64) -> (r: i64)
    ensures
        r == spec_add_sat(a, b),
{
    clamp_wide(a as i128 + b as i128)
}

#[verifier::when_used_as_spec(spec_sub_sat)]
pub fn sub_sat(a: i64, b: i64) -> (r: i64)
    ensures
        r == spec_sub_sat(a, b),
{
    clamp_wide(a as i128 - b as i128)
}

#[verifier::when_used_as_spec(spec_neg_sat)]
pub fn neg_sat(a: i64) -> (r: i64)
    ensures
        r == spec_neg_sat(a),
{
    clamp_wide(-(a as i128))
}

#[verifier::when_used_as_spec(spec_clamp)]
pub fn clamp(a: i64, lo: i64, hi: i64) -> (r: i64)
    ensures
        r == spec_clamp(a, lo, hi),
{
    if a < lo {
        lo
    } else if a > hi {
        hi
    } else {
        a
    }
}

/// The product of two `i64` values stays well inside `i128`.
pub proof fn lemma_product_fits(a: i64, b: i64)
    ensures
        -0x4000_0000_0000_0000_0000_0000_0000_0000 <= a * b
            <= 0x4000_0000_0000_0000_0000_0000_0000_0000,
{
    assert(-0x4000_0000_0000_0000_0000_0000_0000_0000 <= a * b
        <= 0x4000_0000_0000_0000_0000_0000_0000_0000) by (nonlinear_arith)
        requires
            -0x8000_0000_0000_0000 <= a <= 0x8000_0000_0000_0000,
            -0x8000_0000_0000_0000 <= b <= 0x8000_0000_0000_0000,
    ;
}

/// Divides a wide numerator by a non-zero divisor, rounding toward zero.
pub fn quot_wide(n: i128, d: i64) -> (q: i128)
    requires
        d != 0,
        i128::MIN < n,
    ensures
        q == quot(n as int, d as int),
{
    let dw: i128 = d as i128;
    if dw > 0 {
        if n >= 0 {
            n / dw
        } else {
            let m: i128 = (-n) / dw;
            -m
        }
    } else {
        let pd: i128 = -dw;
        if n >= 0 {
            let m: i128 = n / pd;
            -m
        } else {
            (-n) / pd
        }
    }
}

#[verifier::when_used_as_spec(spec_mul_fx)]
pub fn mul_fx(a: i64, b: i64) -> (r: i64)
    ensures
        r == spec_mul_fx(a, b),
{
    proof {
        lemma_product_fits(a, b);
    }
    let p: i128 = a as i128 * b as i128;
    clamp_wide(quot_wide(p, UNIT))
}

#[verifier::when_used_as_spec(spec_div_fx)]
pub fn div_fx(a: i64, b: i64) -> (r: i64)
    requires
        b != 0,
    ensures
        r == spec_div_fx(a, b),
{
    let unit: i128 = UNIT as i128;
    let n: i128 = a as i128 * unit;
    clamp_wide(quot_wide(n, b))
}

/// The integer square root, by bisection.
pub fn isqrt(n: u128) -> (r: u64)
    ensures
        is_isqrt(n as int, r as int),
{
    let mut lo: u128 = 0;
    let mut hi: u128 = 0x1_0000_0000_0000_0000;
    assert(n < hi * hi) by (nonlinear_arith)
        requires
            hi == 0x1_0000_0000_0000_0000,
            n <= u128::MAX,
    ;
    while hi - lo > 1
        invariant
            lo < hi <= 0x1_0000_0000_0000_0000,
            lo * lo <= n < hi * hi,
        decreases hi - lo,
    {
        let mid: u128 = lo + (hi - lo) / 2;
        assert(mid * mid <= u128::MAX) by (nonlinear_arith)
            requires
                mid < 0x1_0000_0000_0000_0000,
        ;
        if mid * mid <= n {
            lo = mid;
        } else {
            hi = mid;
        }
    }
    lo as u64
}

/// A quotient has the sign of its numerator where the divisor is positive.
pub proof fn lemma_quot_sign(n: int, d: int)
    requires
        d > 0,
    ensures
        n >= 0 ==> quot(n, d) >= 0,
        n <= 0 ==> quot(n, d) <= 0,
        n == 0 ==> quot(n, d) == 0,
{
    if n >= 0 {
        assert(n / d >= 0) by (nonlinear_arith)
            requires
                n >= 0,
                d > 0,
        ;
        if n == 0 {
            assert(n / d == 0) by (nonlinear_arith)
                requires
                    n == 0,
                    d > 0,
            ;
        }
    } else {
        assert((-n) / d >= 0) by (nonlinear_arith)
            requires
                -n >= 0,
                d > 0,
        ;
    }
}

/// A product with a non-negative factor has the sign of the other factor.
pub proof fn lemma_mul_fx_sign(a: i64, b: i64)
    requires
        b >= 0,
    ensures
        a >= 0 ==> mul_fx(a, b) >= 0,
        a <= 0 ==> mul_fx(a, b) <= 0,
{
    if a >= 0 {
        assert(a * b >= 0) by (nonlinear_arith)
            requires
                a >= 0,
                b >= 0,
        ;
    }
    if a <= 0 {
        assert(a * b <= 0) by (nonlinear_arith)
            requires
                a <= 0,
                b >= 0,
        ;
    }
    lemma_quot_sign(a * b, UNIT as int);
}

/// A product with zero is zero.
pub proof fn lemma_mul_fx_zero(a: i64)
    ensures
        mul_fx(a, 0) == 0,
        mul_fx(0, a) == 0,
{
    assert(a * 0 == 0 && 0 * a == 0) by (nonlinear_arith);
    lemma_quot_sign(0, UNIT as int);
}

/// A product with one whole unit is the other factor.
pub proof fn lemma_mul_fx_unit(a: i64)
    ensures
        mul_fx(UNIT, a) == a,
        mul_fx(a, UNIT) == a,
{
    assert(a * UNIT == UNIT * a) by (nonlinear_arith);
}

/// Zero divided by anything is zero.
pub proof fn lemma_div_fx_zero(b: i64)
    requires
        b != 0,
    ensures
        div_fx(0, b) == 0,
{
    if b > 0 {
        lemma_quot_sign(0, b as int);
    } else {
        lemma_quot_sign(0, -b);
    }
}

} // verus!
