//! Fixed-point scalars and 2D vectors.
//!
//! Every scalar quantity in this library (positions, speeds, strategy gains,
//! angles in radians, durations in seconds) is a fixed-point number: an `i64`
//! counting millionths of a unit.  Arithmetic is exact integer arithmetic;
//! multiplication and division truncate toward zero, and every operation
//! saturates at the representable range `[FX_MIN, FX_MAX]` instead of
//! overflowing, so all operations are total.

use vstd::arithmetic::div_mod::{
    lemma_add_mod_noop, lemma_div_is_ordered, lemma_div_nonincreasing, lemma_div_pos_is_pos,
    lemma_mod_division_less_than_divisor,
};
use vstd::prelude::*;

verus! {

/// Number of raw steps in one unit: fixed-point values hold millionths.
pub const SCALE: i64 = 1_000_000;

/// Largest representable fixed-point value (two billion units).
pub const FX_MAX: i64 = 2_000_000_000_000_000;

/// Smallest representable fixed-point value.
pub const FX_MIN: i64 = -2_000_000_000_000_000;

/// Half a turn, in fixed-point radians.
pub const PI_FX: i64 = 3_141_593;

/// A full turn, in fixed-point radians; exactly `2 * PI_FX`.
pub const TWO_PI_FX: i64 = 6_283_186;

/// Whether a mathematical value lies in the representable fixed-point range.
pub open spec fn in_range(x: int) -> bool {
    FX_MIN <= x <= FX_MAX
}

/// Saturation to the representable range.
pub open spec fn sat(x: int) -> int {
    if x > FX_MAX {
        FX_MAX as int
    } else if x < FX_MIN {
        FX_MIN as int
    } else {
        x
    }
}

/// Integer division truncating toward zero (the spec operator `/` is
/// Euclidean); defined as 0 for a zero divisor so the function is total.
pub open spec fn tdiv(a: int, b: int) -> int {
    if b > 0 {
        if a >= 0 {
            a / b
        } else {
            -((-a) / b)
        }
    } else if b < 0 {
        if a >= 0 {
            -(a / (-b))
        } else {
            (-a) / (-b)
        }
    } else {
        0
    }
}

/// Saturating fixed-point addition.
pub open spec fn fx_add(a: int, b: int) -> int {
    sat(a + b)
}

/// Saturating fixed-point subtraction.
pub open spec fn fx_sub(a: int, b: int) -> int {
    sat(a - b)
}

/// Saturating fixed-point multiplication: `a * b` rescaled by `SCALE`,
/// truncating toward zero.
pub open spec fn fx_mul(a: int, b: int) -> int {
    sat(tdiv(a * b, SCALE as int))
}

/// Saturating fixed-point division: `a / b` rescaled by `SCALE`,
/// truncating toward zero.
pub open spec fn fx_div(a: int, b: int) -> int {
    sat(tdiv(a * (SCALE as int), b))
}

/// Saturating product of a fixed-point value and a plain integer count.
pub open spec fn fx_scale(a: int, n: int) -> int {
    sat(a * n)
}

/// Half of a fixed-point value, truncating toward zero.
pub open spec fn fx_half(a: int) -> int {
    tdiv(a, 2)
}

/// A 2D fixed-point vector.
#[derive(Clone, Copy, Debug, PartialEq, Eq, Structural)]
pub struct Vec2 {
    pub x: i64,
    pub y: i64,
}

impl Vec2 {
    pub fn new(x: i64, y: i64) -> (r: Vec2)
        ensures
            r == (Vec2 { x, y }),
    {
        Vec2 { x, y }
    }

    pub fn zero() -> (r: Vec2)
        ensures
            r == (Vec2 { x: 0i64, y: 0i64 }),
    {
        Vec2 { x: 0, y: 0 }
    }
}

/// Truncating division has magnitude at most that of the dividend.
proof fn lemma_tdiv_bounds(a: int, b: int)
    requires
        b != 0,
    ensures
        a >= 0 ==> -a <= tdiv(a, b) <= a,
        a < 0 ==> a <= tdiv(a, b) <= -a,
{
    if b > 0 {
        if a >= 0 {
            lemma_div_pos_is_pos(a, b);
            lemma_div_nonincreasing(a, b);
        } else {
            lemma_div_pos_is_pos(-a, b);
            lemma_div_nonincreasing(-a, b);
        }
    } else {
        if a >= 0 {
            lemma_div_pos_is_pos(a, -b);
            lemma_div_nonincreasing(a, -b);
        } else {
            lemma_div_pos_is_pos(-a, -b);
            lemma_div_nonincreasing(-a, -b);
        }
    }
}

/// Saturate a wide intermediate result back to an `i64` in fixed-point range.
fn sat64(x: i128) -> (r: i64)
    ensures
        r as int == sat(x as int),
{
    if x > FX_MAX as i128 {
        FX_MAX
    } else if x < FX_MIN as i128 {
        FX_MIN
    } else {
        x as i64
    }
}

/// Truncating division on wide intermediates.
fn tdiv_i128(a: i128, b: i128) -> (r: i128)
    requires
        b != 0,
        a != i128::MIN,
        b != i128::MIN,
    ensures
        r as int == tdiv(a as int, b as int),
        a >= 0 ==> -a <= r <= a,
        a < 0 ==> a <= r <= -a,
{
    let neg: bool = (a < 0) != (b < 0);
    let ua: u128 = if a < 0 {
        (-a) as u128
    } else {
        a as u128
    };
    let ub: u128 = if b < 0 {
        (-b) as u128
    } else {
        b as u128
    };
    let q: u128 = ua / ub;
    proof {
        lemma_div_pos_is_pos(ua as int, ub as int);
        lemma_div_nonincreasing(ua as int, ub as int);
        lemma_tdiv_bounds(a as int, b as int);
    }
    let qi: i128 = q as i128;
    if neg {
        -qi
    } else {
        qi
    }
}

/// Saturating addition of two fixed-point values.
pub fn add_sat(a: i64, b: i64) -> (r: i64)
    ensures
        r as int == fx_add(a as int, b as int),
{
    sat64(a as i128 + b as i128)
}

/// Saturating subtraction of two fixed-point values.
pub fn sub_sat(a: i64, b: i64) -> (r: i64)
    ensures
        r as int == fx_sub(a as int, b as int),
{
    sat64(a as i128 - b as i128)
}

/// The product of two `i64` values fits in an `i128`.
proof fn lemma_i64_product_fits(a: int, b: int)
    requires
        i64::MIN <= a <= i64::MAX,
        i64::MIN <= b <= i64::MAX,
    ensures
        i128::MIN < a * b < i128::MAX,
{
    assert(i128::MIN < a * b < i128::MAX) by (nonlinear_arith)
        requires
            -0x8000_0000_0000_0000 <= a <= 0x7fff_ffff_ffff_ffff,
            -0x8000_0000_0000_0000 <= b <= 0x7fff_ffff_ffff_ffff,
    ;
}

/// Saturating fixed-point multiplication.
pub fn mul_fx(a: i64, b: i64) -> (r: i64)
    ensures
        r as int == fx_mul(a as int, b as int),
{
    proof {
        lemma_i64_product_fits(a as int, b as int);
    }
    let p: i128 = (a as i128) * (b as i128);
    sat64(tdiv_i128(p, SCALE as i128))
}

/// Saturating fixed-point division.
pub fn div_fx(a: i64, b: i64) -> (r: i64)
    requires
        b != 0,
    ensures
        r as int == fx_div(a as int, b as int),
{
    proof {
        lemma_i64_product_fits(a as int, SCALE as int);
    }
    let p: i128 = (a as i128) * (SCALE as i128);
    sat64(tdiv_i128(p, b as i128))
}

/// Saturating product of a fixed-point value and an integer count.
pub fn scale_sat(a: i64, n: i64) -> (r: i64)
    ensures
        r as int == fx_scale(a as int, n as int),
{
    proof {
        lemma_i64_product_fits(a as int, n as int);
    }
    sat64((a as i128) * (n as i128))
}

/// Half of a fixed-point value, truncating toward zero.
pub fn half_fx(a: i64) -> (r: i64)
    ensures
        r as int == fx_half(a as int),
{
    let q: i128 = tdiv_i128(a as i128, 2);
    q as i64
}

/// Whether `r` is the integer square root (rounded down) of `n`.
pub open spec fn is_sqrt(n: int, r: int) -> bool {
    0 <= r && r * r <= n && n < (r + 1) * (r + 1)
}

/// The integer square root of `n`, rounded down.
pub open spec fn sqrt_floor(n: int) -> int {
    choose|r: int| is_sqrt(n, r)
}

/// The integer square root is unique.
pub proof fn lemma_sqrt_unique(n: int, r1: int, r2: int)
    requires
        is_sqrt(n, r1),
        is_sqrt(n, r2),
    ensures
        r1 == r2,
{
    assert(r1 == r2) by (nonlinear_arith)
        requires
            0 <= r1,
            r1 * r1 <= n,
            n < (r1 + 1) * (r1 + 1),
            0 <= r2,
            r2 * r2 <= n,
            n < (r2 + 1) * (r2 + 1),
    ;
}

/// Integer square root by bisection.
pub fn isqrt(n: u128) -> (r: u64)
    ensures
        is_sqrt(n as int, r as int),
        r as int == sqrt_floor(n as int),
{
    let mut lo: u128 = 0;
    let mut hi: u128 = u64::MAX as u128;
    proof {
        assert((hi + 1) * (hi + 1) > n as int) by (nonlinear_arith)
            requires
                hi == 0xffff_ffff_ffff_ffffu128,
                n <= 0xffff_ffff_ffff_ffff_ffff_ffff_ffff_ffffu128,
        ;
    }
    while lo < hi
        invariant
            lo <= hi <= u64::MAX,
            lo * lo <= n,
            n < (hi + 1) * (hi + 1),
        decreases hi - lo,
    {
        let mid: u128 = lo + (hi - lo + 1) / 2;
        proof {
            assert(lo < mid <= hi);
            assert(mid * mid <= u128::MAX) by (nonlinear_arith)
                requires
                    mid <= 0xffff_ffff_ffff_ffffu128,
            ;
        }
        let sq: u128 = mid * mid;
        if sq <= n {
            lo = mid;
        } else {
            hi = mid - 1;
        }
    }
    proof {
        assert(is_sqrt(n as int, lo as int));
        lemma_sqrt_unique(n as int, lo as int, sqrt_floor(n as int));
    }
    lo as u64
}

/// The length of the diagonal of a `w` by `h` rectangle, rounded down,
/// saturated to the fixed-point range.
pub open spec fn diag_spec(w: int, h: int) -> int {
    sat(sqrt_floor(w * w + h * h))
}

/// The diagonal of a rectangle of fixed-point side lengths; a conservative
/// over-estimate of the viewport extent in any direction.
pub fn diagonal(w: i64, h: i64) -> (r: i64)
    ensures
        r as int == diag_spec(w as int, h as int),
        0 <= r <= FX_MAX,
{
    proof {
        assert(0 <= (w as i128) * (w as i128) <= 0x4000_0000_0000_0000_0000_0000_0000_0000i128
            && 0 <= (h as i128) * (h as i128)
                <= 0x4000_0000_0000_0000_0000_0000_0000_0000i128) by (nonlinear_arith)
            requires
                -0x8000_0000_0000_0000i128 <= w as i128 <= 0x7fff_ffff_ffff_ffffi128,
                -0x8000_0000_0000_0000i128 <= h as i128 <= 0x7fff_ffff_ffff_ffffi128,
        ;
    }
    let ww: u128 = ((w as i128) * (w as i128)) as u128;
    let hh: u128 = ((h as i128) * (h as i128)) as u128;
    let s: u128 = ww + hh;
    let q: u64 = isqrt(s);
    if q > FX_MAX as u64 {
        FX_MAX
    } else {
        q as i64
    }
}

/// Ceiling division of nonnegative `a` by positive `b`.
pub open spec fn ceil_div(a: int, b: int) -> int {
    (a + b - 1) / b
}

/// The ceiling of a quotient of nonnegatives is at most the dividend.
pub proof fn lemma_ceil_div_bounds(a: int, b: int)
    requires
        0 <= a,
        0 < b,
    ensures
        0 <= ceil_div(a, b) <= a,
        a > 0 ==> ceil_div(a, b) >= 1,
{
    lemma_div_pos_is_pos(a + b - 1, b);
    if a == 0 {
        lemma_div_nonincreasing(b - 1, b);
        vstd::arithmetic::div_mod::lemma_basic_div(b - 1, b);
    } else {
        assert(a + b - 1 <= a * b) by (nonlinear_arith)
            requires
                1 <= a,
                1 <= b,
        ;
        lemma_div_is_ordered(a + b - 1, a * b, b);
        vstd::arithmetic::div_mod::lemma_div_by_multiple(a, b);
        lemma_div_is_ordered(b, a + b - 1, b);
        vstd::arithmetic::div_mod::lemma_div_by_self(b);
    }
}

/// Ceiling division, used to size the tile grid along an axis.
pub fn div_ceil64(a: i64, b: i64) -> (r: i64)
    requires
        0 <= a,
        0 < b,
    ensures
        r as int == ceil_div(a as int, b as int),
        0 <= r <= a,
        a > 0 ==> r >= 1,
{
    proof {
        lemma_ceil_div_bounds(a as int, b as int);
    }
    let num: u128 = a as u128 + (b as u128 - 1);
    let q: u128 = num / (b as u128);
    q as i64
}

/// Whether an integer is odd (in the Euclidean sense, so `-3` is odd).
pub open spec fn is_odd(x: int) -> bool {
    x % 2 == 1
}

/// Negation preserves parity.
proof fn lemma_neg_parity(x: int)
    ensures
        is_odd(x) <==> is_odd(-x),
{
    lemma_add_mod_noop(x, -x, 2);
    lemma_mod_division_less_than_divisor(x, 2);
    lemma_mod_division_less_than_divisor(-x, 2);
}

/// Whether an `i64` is odd.
pub fn odd64(x: i64) -> (r: bool)
    ensures
        r == is_odd(x as int),
{
    if x >= 0 {
        (x as u64) % 2 == 1
    } else {
        proof {
            lemma_neg_parity(x as int);
        }
        let m: u64 = ((-(x as i128)) as u128 % 2) as u64;
        m == 1
    }
}

} // verus!
