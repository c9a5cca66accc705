//! Fixed-point arithmetic.
//!
//! Every real quantity of the simulation (seconds, degrees, sizes, phase
//! fractions) is an `i64` counting millionths: `1.0` is [`SCALE`].  The
//! operations here compute in `i128`, round towards minus infinity, and
//! saturate at the limits of `i64`; their contracts are stated over `int`.
use vstd::prelude::*;

verus! {

/// The fixed-point representation of `1.0`.
pub const SCALE: i64 = 1_000_000;

/// `x`, clamped into the range of `i64`.
pub open spec fn saturated(x: int) -> int {
    if x < i64::MIN {
        i64::MIN as int
    } else if x > i64::MAX {
        i64::MAX as int
    } else {
        x
    }
}

/// The fixed-point product `a * b`, rounded down.
pub open spec fn product(a: int, b: int) -> int {
    saturated((a * b) / (SCALE as int))
}

/// The fixed-point quotient `num / den`, rounded down.
pub open spec fn quotient(num: int, den: int) -> int {
    saturated((num * SCALE) / den)
}

/// The point a fraction `weight / SCALE` of the way from `a` to `b`, rounded down.
pub open spec fn blend(a: int, b: int, weight: int) -> int {
    ((SCALE - weight) * a + weight * b) / (SCALE as int)
}

/// Narrows to `i64`, saturating.
pub fn saturate(x: i128) -> (r: i64)
    ensures
        r == saturated(x as int),
{
    if x < i64::MIN as i128 {
        i64::MIN
    } else if x > i64::MAX as i128 {
        i64::MAX
    } else {
        x as i64
    }
}

/// Quotient and remainder, rounding the quotient towards minus infinity.
pub fn div_mod_floor(a: i128, d: i128) -> (qr: (i128, i128))
    requires
        d > 0,
    ensures
        qr.0 == (a as int) / (d as int),
        qr.1 == (a as int) % (d as int),
        0 <= qr.1 < d,
{
    let q0: i128 = a / d;
    let r0: i128 = a % d;
    proof {
        vstd::arithmetic::div_mod::lemma_mod_bound(a as int, d as int);
        if a >= 0 {
            vstd::arithmetic::div_mod::lemma_fundamental_div_mod(a as int, d as int);
        } else {
            vstd::arithmetic::div_mod::lemma_fundamental_div_mod(-(a as int), d as int);
            vstd::arithmetic::div_mod::lemma_mod_bound(-(a as int), d as int);
            lemma_floor_from_truncated(a as int, d as int, q0 as int, r0 as int);
        }
    }
    if r0 < 0 {
        (q0 - 1, r0 + d)
    } else {
        (q0, r0)
    }
}

/// Division rounding towards minus infinity.
pub fn div_floor(a: i128, d: i128) -> (q: i128)
    requires
        d > 0,
    ensures
        q == (a as int) / (d as int),
{
    div_mod_floor(a, d).0
}

/// The remainder that goes with [`div_floor`]: never negative.
pub fn mod_floor(a: i128, d: i128) -> (r: i128)
    requires
        d > 0,
    ensures
        r == (a as int) % (d as int),
        0 <= r < d,
{
    div_mod_floor(a, d).1
}

/// Relates a truncated quotient and remainder of a negative dividend to the
/// floored ones.
proof fn lemma_floor_from_truncated(a: int, d: int, q0: int, r0: int)
    requires
        a < 0,
        d > 0,
        q0 == -((-a) / d),
        r0 == -((-a) % d),
        (-a) == d * ((-a) / d) + (-a) % d,
        0 <= (-a) % d < d,
    ensures
        r0 < 0 ==> a / d == q0 - 1 && a % d == r0 + d,
        r0 >= 0 ==> a / d == q0 && a % d == r0,
        a <= a / d,
{
    let m = (-a) / d;
    assert(a == d * q0 + r0) by (nonlinear_arith)
        requires
            (-a) == d * m + (-a) % d,
            q0 == -m,
            r0 == -((-a) % d),
    ;
    if r0 < 0 {
        assert(a == (q0 - 1) * d + (r0 + d)) by (nonlinear_arith)
            requires
                a == d * q0 + r0,
        ;
        vstd::arithmetic::div_mod::lemma_fundamental_div_mod_converse(a, d, q0 - 1, r0 + d);
    } else {
        assert(a == q0 * d + r0) by (nonlinear_arith)
            requires
                a == d * q0 + r0,
        ;
        vstd::arithmetic::div_mod::lemma_fundamental_div_mod_converse(a, d, q0, r0);
    }
    let q = a / d;
    let r = a % d;
    vstd::arithmetic::div_mod::lemma_fundamental_div_mod(a, d);
    assert(a <= q) by (nonlinear_arith)
        requires
            a == d * q + r,
            0 <= r < d,
            a < 0,
            d > 0,
    ;
}

/// The product of two `i64` fits in `i128`.
pub proof fn lemma_product_fits(a: int, b: int)
    requires
        i64::MIN <= a <= i64::MAX,
        i64::MIN <= b <= i64::MAX,
    ensures
        -0x4000_0000_0000_0000_0000_0000_0000_0000 <= a * b
            <= 0x4000_0000_0000_0000_0000_0000_0000_0000,
{
    assert(-0x4000_0000_0000_0000_0000_0000_0000_0000 <= a * b
        <= 0x4000_0000_0000_0000_0000_0000_0000_0000) by (nonlinear_arith)
        requires
            -0x8000_0000_0000_0000 <= a <= 0x8000_0000_0000_0000,
            -0x8000_0000_0000_0000 <= b <= 0x8000_0000_0000_0000,
    ;
}

/// Fixed-point multiplication.
pub fn times(a: i64, b: i64) -> (r: i64)
    ensures
        r == product(a as int, b as int),
{
    proof {
        lemma_product_fits(a as int, b as int);
    }
    let wide: i128 = (a as i128) * (b as i128);
    saturate(div_floor(wide, SCALE as i128))
}

/// Fixed-point division of one difference of two `i64` by another that
/// is positive.
pub fn over(num: i128, den: i128) -> (r: i64)
    requires
        -0x1_0000_0000_0000_0000 <= num <= 0x1_0000_0000_0000_0000,
        den > 0,
    ensures
        r == quotient(num as int, den as int),
{
    proof {
        assert(-0x1_0000_0000_0000_0000 * 1_000_000 <= num * SCALE <= 0x1_0000_0000_0000_0000
            * 1_000_000) by (nonlinear_arith)
            requires
                -0x1_0000_0000_0000_0000 <= num <= 0x1_0000_0000_0000_0000,
                SCALE == 1_000_000,
        ;
    }
    saturate(div_floor(num * (SCALE as i128), den))
}

/// Saturating addition.
pub fn plus(a: i64, b: i64) -> (r: i64)
    ensures
        r == saturated(a + b),
{
    saturate(a as i128 + b as i128)
}

/// Saturating subtraction.
pub fn minus(a: i64, b: i64) -> (r: i64)
    ensures
        r == saturated(a - b),
{
    saturate(a as i128 - b as i128)
}

/// A blend lies between its two ends.
pub proof fn lemma_blend_between(a: int, b: int, weight: int)
    requires
        0 <= weight <= SCALE,
    ensures
        a <= b ==> a <= blend(a, b, weight) <= b,
        b <= a ==> b <= blend(a, b, weight) <= a,
        a == b ==> blend(a, b, weight) == a,
        weight == 0 ==> blend(a, b, weight) == a,
        weight == SCALE ==> blend(a, b, weight) == b,
{
    let s = SCALE as int;
    let n = (s - weight) * a + weight * b;
    if a <= b {
        assert(s * a <= n <= s * b) by (nonlinear_arith)
            requires
                n == (s - weight) * a + weight * b,
                0 <= weight <= s,
                a <= b,
        ;
    }
    if b <= a {
        assert(s * b <= n <= s * a) by (nonlinear_arith)
            requires
                n == (s - weight) * a + weight * b,
                0 <= weight <= s,
                b <= a,
        ;
    }
    if weight == 0 {
        assert(n == s * a) by (nonlinear_arith)
            requires
                n == (s - weight) * a + weight * b,
                weight == 0,
        ;
    }
    if weight == s {
        assert(n == s * b) by (nonlinear_arith)
            requires
                n == (s - weight) * a + weight * b,
                weight == s,
        ;
    }
}

/// Between two ends in rising order a blend rises with the weight, and
/// between two ends in falling order it falls.
pub proof fn lemma_blend_monotone(a: int, b: int, lighter: int, heavier: int)
    requires
        0 <= lighter <= heavier <= SCALE,
    ensures
        a <= b ==> blend(a, b, lighter) <= blend(a, b, heavier),
        b <= a ==> blend(a, b, heavier) <= blend(a, b, lighter),
{
    let s = SCALE as int;
    let low = (s - lighter) * a + lighter * b;
    let high = (s - heavier) * a + heavier * b;
    if a <= b {
        assert(low <= high) by (nonlinear_arith)
            requires
                low == (s - lighter) * a + lighter * b,
                high == (s - heavier) * a + heavier * b,
                lighter <= heavier,
                a <= b,
        ;
        vstd::arithmetic::div_mod::lemma_div_is_ordered(low, high, s);
    }
    if b <= a {
        assert(high <= low) by (nonlinear_arith)
            requires
                low == (s - lighter) * a + lighter * b,
                high == (s - heavier) * a + heavier * b,
                lighter <= heavier,
                b <= a,
        ;
        vstd::arithmetic::div_mod::lemma_div_is_ordered(high, low, s);
    }
}

/// The weighted mean of two samples, as [`blend`] states it.
pub fn mix(a: i64, b: i64, weight: i64) -> (r: i64)
    requires
        0 <= weight <= SCALE,
    ensures
        r == blend(a as int, b as int, weight as int),
{
    proof {
        lemma_product_fits(SCALE - weight, a as int);
        lemma_product_fits(weight as int, b as int);
        lemma_blend_between(a as int, b as int, weight as int);
    }
    let left: i128 = ((SCALE - weight) as i128) * (a as i128);
    let right: i128 = (weight as i128) * (b as i128);
    let q: i128 = div_floor(left + right, SCALE as i128);
    q as i64
}

} // verus!
