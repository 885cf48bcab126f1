//! Saturating fixed-point arithmetic.
//!
//! A [`Num`] counts millionths: the quantity `1` is stored as [`SCALE`]. Every
//! operation computes the exact integer result, rounds a quotient toward zero
//! and then saturates at the ends of the `i64` range, so no operation can
//! overflow, trap or fail. Dividing by zero saturates by the sign of the
//! dividend, and `0 / 0` is `0`.
use vstd::arithmetic::div_mod::{lemma_fundamental_div_mod, lemma_mod_bound};
use vstd::prelude::*;

verus! {

/// A fixed-point quantity, counted in millionths.
pub type Num = i64;

/// How many units of a [`Num`] make up the quantity one.
pub const SCALE: i64 = 1_000_000;

/// The nearest value to `v` that a [`Num`] can hold.
pub open spec fn clamp(v: int) -> int {
    if v < i64::MIN as int {
        i64::MIN as int
    } else if v > i64::MAX as int {
        i64::MAX as int
    } else {
        v
    }
}

/// The quotient `n / d` rounded toward zero, for a positive divisor.
pub open spec fn quot(n: int, d: int) -> int
    recommends
        d > 0,
{
    if n >= 0 {
        n / d
    } else {
        -((-n) / d)
    }
}

/// The saturated quotient of two integers. A zero divisor gives the end of the
/// range on the side of the dividend's sign, and zero for a zero dividend.
pub open spec fn sat_quot(n: int, d: int) -> int {
    if d == 0 {
        if n > 0 {
            i64::MAX as int
        } else if n < 0 {
            i64::MIN as int
        } else {
            0
        }
    } else if d > 0 {
        clamp(quot(n, d))
    } else {
        clamp(quot(-n, -d))
    }
}

/// The saturated sum.
pub open spec fn sat_add(a: int, b: int) -> int {
    clamp(a + b)
}

/// The saturated difference.
pub open spec fn sat_sub(a: int, b: int) -> int {
    clamp(a - b)
}

/// The saturated fixed-point product: `a * b` counted in millionths again.
pub open spec fn sat_mul(a: int, b: int) -> int {
    sat_quot(a * b, SCALE as int)
}

/// The saturated fixed-point quotient: `a / b` counted in millionths.
pub open spec fn sat_div(a: int, b: int) -> int {
    sat_quot(a * SCALE, b)
}

/// Wilder's smoothing of an average over `period` steps by one more value:
/// `(avg * (period - 1) + cur) / period`, with one rounding.
pub open spec fn sat_smooth(avg: int, cur: int, period: int) -> int {
    sat_quot(avg * (period - 1) + cur, period)
}

/// The saturated absolute value.
pub open spec fn sat_abs(a: int) -> int {
    clamp(if a < 0 { -a } else { a })
}

/// The larger of two values.
pub open spec fn max_of(a: int, b: int) -> int {
    if a >= b {
        a
    } else {
        b
    }
}

/// The fixed-point value of a whole count `n`, saturated.
pub open spec fn sat_count(n: int) -> int {
    clamp(n * SCALE)
}

/// `r` is the integer square root of `n`: the largest integer whose square
/// does not exceed `n`.
pub open spec fn is_floor_root(n: int, r: int) -> bool {
    0 <= r && r * r <= n && n < (r + 1) * (r + 1)
}

/// The integer square root of a non-negative integer.
pub open spec fn floor_root(n: int) -> int
    recommends
        n >= 0,
{
    choose|r: int| is_floor_root(n, r)
}

/// The fixed-point square root, rounded down. The root of a negative value
/// is zero.
pub open spec fn sat_sqrt(a: int) -> int {
    if a <= 0 {
        0
    } else {
        floor_root(a * SCALE)
    }
}

/// A quotient that is rounded toward zero lies less than one unit from the
/// exact quotient, on the side of zero: the remainder is smaller than the
/// divisor and has the sign of the dividend.
pub proof fn lemma_quot_rounds(n: int, d: int)
    requires
        d > 0,
    ensures
        n >= 0 ==> 0 <= n - quot(n, d) * d < d,
        n <= 0 ==> -d < n - quot(n, d) * d <= 0,
{
    if n >= 0 {
        lemma_fundamental_div_mod(n, d);
        lemma_mod_bound(n, d);
        assert(d * (n / d) == (n / d) * d) by (nonlinear_arith);
    } else {
        lemma_fundamental_div_mod(-n, d);
        lemma_mod_bound(-n, d);
        assert(d * ((-n) / d) == ((-n) / d) * d) by (nonlinear_arith);
        assert((-((-n) / d)) * d == -(((-n) / d) * d)) by (nonlinear_arith);
    }
}

/// Squares grow with their non-negative argument.
pub proof fn lemma_square_monotone(a: int, b: int)
    requires
        0 <= a <= b,
    ensures
        a * a <= b * b,
{
    assert(a * a <= b * b) by (nonlinear_arith)
        requires
            0 <= a <= b,
    ;
}

/// A number has at most one integer square root.
pub proof fn lemma_floor_root_unique(n: int, r1: int, r2: int)
    requires
        is_floor_root(n, r1),
        is_floor_root(n, r2),
    ensures
        r1 == r2,
{
    if r1 < r2 {
        lemma_square_monotone(r1 + 1, r2);
    } else if r2 < r1 {
        lemma_square_monotone(r2 + 1, r1);
    }
}

/// Whatever satisfies the defining property is the integer square root.
pub proof fn lemma_floor_root_is(n: int, r: int)
    requires
        is_floor_root(n, r),
    ensures
        floor_root(n) == r,
{
    lemma_floor_root_unique(n, r, floor_root(n));
}

/// The product of two 64-bit values fits comfortably in 128 bits.
pub proof fn lemma_product_bound(a: int, b: int)
    requires
        -0x8000_0000_0000_0000 <= a <= 0x8000_0000_0000_0000,
        -0x1_0000_0000_0000_0000 < b < 0x1_0000_0000_0000_0000,
    ensures
        -0x8000_0000_0000_0000_0000_0000_0000_0000 < a * b
            < 0x8000_0000_0000_0000_0000_0000_0000_0000,
{
    assert(-0x8000_0000_0000_0000_0000_0000_0000_0000 < a * b
        < 0x8000_0000_0000_0000_0000_0000_0000_0000) by (nonlinear_arith)
        requires
            -0x8000_0000_0000_0000 <= a <= 0x8000_0000_0000_0000,
            -0x1_0000_0000_0000_0000 < b < 0x1_0000_0000_0000_0000,
    ;
}

/// Saturates a wide integer to a [`Num`].
pub fn narrow(v: i128) -> (r: Num)
    ensures
        r == clamp(v as int),
{
    if v > i64::MAX as i128 {
        i64::MAX
    } else if v < i64::MIN as i128 {
        i64::MIN
    } else {
        v as i64
    }
}

/// Divides two wide integers, rounding toward zero and saturating.
pub fn fx_quot(n: i128, d: i128) -> (r: Num)
    requires
        d >= 0,
    ensures
        r == sat_quot(n as int, d as int),
{
    if d == 0 {
        if n > 0 {
            i64::MAX
        } else if n < 0 {
            i64::MIN
        } else {
            0
        }
    } else {
        narrow(n / d)
    }
}

/// Divides a wide integer by a value of either sign, rounding toward zero
/// and saturating.
pub fn fx_ratio(n: i128, d: Num) -> (r: Num)
    requires
        n > i128::MIN,
    ensures
        r == sat_quot(n as int, d as int),
{
    if d < 0 {
        fx_quot(-n, -(d as i128))
    } else {
        fx_quot(n, d as i128)
    }
}

/// Smooths an average over `period` steps by one more value, as Wilder does.
pub fn fx_smooth(avg: Num, cur: Num, period: usize) -> (r: Num)
    ensures
        r == sat_smooth(avg as int, cur as int, period as int),
{
    let weight: i128 = period as i128 - 1;
    assert(-0x7fff_ffff_ffff_ffff_0000_0000_0000_0000 <= avg * weight
        <= 0x7fff_ffff_ffff_ffff_0000_0000_0000_0000) by (nonlinear_arith)
        requires
            -0x8000_0000_0000_0000 <= avg <= 0x7fff_ffff_ffff_ffff,
            -1 <= weight <= 0xffff_ffff_ffff_fffe,
    ;
    fx_quot(avg as i128 * weight + cur as i128, period as i128)
}

/// Adds two values, saturating.
pub fn fx_add(a: Num, b: Num) -> (r: Num)
    ensures
        r == sat_add(a as int, b as int),
{
    narrow(a as i128 + b as i128)
}

/// Subtracts `b` from `a`, saturating.
pub fn fx_sub(a: Num, b: Num) -> (r: Num)
    ensures
        r == sat_sub(a as int, b as int),
{
    narrow(a as i128 - b as i128)
}

/// Multiplies two fixed-point values, rounding toward zero and saturating.
pub fn fx_mul(a: Num, b: Num) -> (r: Num)
    ensures
        r == sat_mul(a as int, b as int),
{
    proof {
        lemma_product_bound(a as int, b as int);
    }
    fx_quot(a as i128 * b as i128, SCALE as i128)
}

/// Divides `a` by `b` as fixed-point values, rounding toward zero and
/// saturating. A zero divisor saturates by the sign of `a`.
pub fn fx_div(a: Num, b: Num) -> (r: Num)
    ensures
        r == sat_div(a as int, b as int),
{
    proof {
        lemma_product_bound(a as int, SCALE as int);
    }
    fx_ratio(a as i128 * SCALE as i128, b)
}

/// The absolute value, saturating.
pub fn fx_abs(a: Num) -> (r: Num)
    ensures
        r == sat_abs(a as int),
{
    if a < 0 {
        narrow(-(a as i128))
    } else {
        a
    }
}

/// The larger of two values.
pub fn fx_max(a: Num, b: Num) -> (r: Num)
    ensures
        r == max_of(a as int, b as int),
{
    if a >= b {
        a
    } else {
        b
    }
}

/// The fixed-point value of a whole count, saturating.
pub fn fx_count(n: usize) -> (r: Num)
    ensures
        r == sat_count(n as int),
{
    proof {
        lemma_product_bound(SCALE as int, n as int);
        assert(n as int * SCALE as int == SCALE as int * n as int) by (nonlinear_arith);
    }
    narrow(n as i128 * SCALE as i128)
}

/// The fixed-point square root, rounded down; zero for a negative value.
pub fn fx_sqrt(a: Num) -> (r: Num)
    ensures
        r == sat_sqrt(a as int),
{
    if a <= 0 {
        return 0;
    }
    proof {
        lemma_product_bound(a as int, SCALE as int);
    }
    let n: i128 = a as i128 * SCALE as i128;
    let mut lo: i128 = 0;
    let mut hi: i128 = 0x400_0000_0000;
    assert(n < 0x400_0000_0000 * 0x400_0000_0000) by (nonlinear_arith)
        requires
            n == a * SCALE,
            a <= 0x7fff_ffff_ffff_ffff,
            SCALE == 1_000_000,
    ;
    while hi - lo > 1
        invariant
            0 <= lo < hi <= 0x400_0000_0000,
            lo * lo <= n < hi * hi,
        decreases hi - lo,
    {
        let mid: i128 = lo + (hi - lo) / 2;
        assert(0 <= mid * mid <= 0x400_0000_0000 * 0x400_0000_0000) by (nonlinear_arith)
            requires
                0 <= mid <= 0x400_0000_0000,
        ;
        if mid * mid <= n {
            lo = mid;
        } else {
            hi = mid;
        }
    }
    proof {
        assert(hi == lo + 1);
        lemma_floor_root_is(n as int, lo as int);
    }
    lo as i64
}

} // verus!
