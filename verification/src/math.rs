//! Fixed-point integer arithmetic that the geometric kernel is built on:
//! integer square root, rounded division and wide multiplication.

use vstd::prelude::*;

verus! {

/// Fixed-point ticks that make up one world unit.
pub const TICKS_PER_UNIT: i64 = 10_000;

/// Largest coordinate magnitude, in ticks, a well-formed geometric value
/// may carry; keeps every intermediate product inside `i128`.
pub const COORD_LIMIT: i64 = 100_000_000;

pub open spec fn abs_int(x: int) -> int {
    if x < 0 {
        -x
    } else {
        x
    }
}

/// Division rounded to the nearest integer, ties away from zero.
pub open spec fn div_round_spec(num: int, den: int) -> int
    recommends
        den > 0,
{
    if num >= 0 {
        (num + den / 2) / den
    } else {
        -((-num + den / 2) / den)
    }
}

/// The integer square root, defined by counting up.
pub open spec fn isqrt_spec(n: int) -> int
    decreases n,
{
    if n < 1 {
        0
    } else {
        let r = isqrt_spec(n - 1);
        if (r + 1) * (r + 1) <= n {
            r + 1
        } else {
            r
        }
    }
}

/// The integer square root of `n >= 0` is the unique `r` with
/// `r * r <= n < (r + 1) * (r + 1)`.
pub proof fn lemma_isqrt_spec_bounds(n: int)
    requires
        n >= 0,
    ensures
        0 <= isqrt_spec(n),
        isqrt_spec(n) * isqrt_spec(n) <= n,
        n < (isqrt_spec(n) + 1) * (isqrt_spec(n) + 1),
    decreases n,
{
    if n == 0 {
    } else {
        lemma_isqrt_spec_bounds(n - 1);
        let r = isqrt_spec(n - 1);
        if (r + 1) * (r + 1) <= n {
            assert(n <= (r + 1) * (r + 1));
            assert((r + 1) * (r + 1) < (r + 2) * (r + 2)) by (nonlinear_arith)
                requires
                    r >= 0,
            ;
        }
    }
}

/// Any `r` in the integer-square-root range equals `isqrt_spec(n)`.
pub proof fn lemma_isqrt_unique(n: int, r: int)
    requires
        n >= 0,
        0 <= r,
        r * r <= n,
        n < (r + 1) * (r + 1),
    ensures
        r == isqrt_spec(n),
{
    lemma_isqrt_spec_bounds(n);
    let s = isqrt_spec(n);
    if r < s {
        assert((r + 1) * (r + 1) <= s * s) by (nonlinear_arith)
            requires
                0 <= r,
                0 <= s,
                r < s,
        ;
    }
    if s < r {
        assert((s + 1) * (s + 1) <= r * r) by (nonlinear_arith)
            requires
                0 <= r,
                0 <= s,
                s < r,
        ;
    }
}

/// Executable integer square root over the full `u128` range.
pub fn isqrt_u128(n: u128) -> (r: u64)
    ensures
        r * r <= n < (r + 1) * (r + 1),
        r == isqrt_spec(n as int),
{
    let mut lo: u128 = 0;
    let mut hi: u128 = 0x1_0000_0000_0000_0000;
    proof {
        assert(n < hi * hi) by (nonlinear_arith)
            requires
                n <= u128::MAX,
                hi == 0x1_0000_0000_0000_0000u128,
        ;
    }
    while lo + 1 < hi
        invariant
            0 <= lo < hi <= 0x1_0000_0000_0000_0000,
            lo * lo <= n,
            n < hi * hi,
        decreases hi - lo,
    {
        let mid: u128 = lo + (hi - lo) / 2;
        proof {
            assert(mid * mid <= u128::MAX) by (nonlinear_arith)
                requires
                    0 <= mid,
                    mid <= 0xffff_ffff_ffff_ffffu128,
            ;
        }
        if mid * mid <= n {
            lo = mid;
        } else {
            hi = mid;
        }
    }
    let r: u64 = lo as u64;
    proof {
        assert((lo + 1) * (lo + 1) >= hi * hi) by (nonlinear_arith)
            requires
                lo + 1 >= hi,
                hi >= 1,
        ;
        lemma_isqrt_unique(n as int, r as int);
    }
    r
}

/// Bound under which two `i128` values can be multiplied without overflow.
pub const MUL_LIMIT: i128 = 4_000_000_000_000_000_000;

/// Wide multiplication with a single reusable overflow argument.
pub fn mul_i128(a: i128, b: i128) -> (r: i128)
    requires
        abs_int(a as int) <= MUL_LIMIT,
        abs_int(b as int) <= MUL_LIMIT,
    ensures
        r == a * b,
{
    proof {
        assert(-(MUL_LIMIT * MUL_LIMIT) <= a * b <= MUL_LIMIT * MUL_LIMIT) by (nonlinear_arith)
            requires
                -MUL_LIMIT <= a <= MUL_LIMIT,
                -MUL_LIMIT <= b <= MUL_LIMIT,
        ;
    }
    a * b
}

/// Division rounded to nearest, ties away from zero, by a positive divisor.
pub fn div_round_i128(num: i128, den: i128) -> (r: i128)
    requires
        0 < den <= 0x1000_0000_0000_0000_0000_0000_0000_0000,
        -0x1000_0000_0000_0000_0000_0000_0000_0000 <= num
            <= 0x1000_0000_0000_0000_0000_0000_0000_0000,
    ensures
        r == div_round_spec(num as int, den as int),
{
    let d: u128 = den as u128;
    if num >= 0 {
        let q: u128 = ((num as u128) + d / 2) / d;
        proof {
            assert(q <= (num + den / 2)) by (nonlinear_arith)
                requires
                    den >= 1,
                    num >= 0,
                    q == ((num as int) + (den as int) / 2) / (den as int),
            ;
        }
        q as i128
    } else {
        let q: u128 = (((-num) as u128) + d / 2) / d;
        proof {
            assert(q <= (-num + den / 2)) by (nonlinear_arith)
                requires
                    den >= 1,
                    num < 0,
                    q == ((-num as int) + (den as int) / 2) / (den as int),
            ;
        }
        -(q as i128)
    }
}

/// A rounded quotient differs from the exact ratio by at most half the
/// divisor: `|den * div_round_spec(num, den) - num| <= den / 2`, stated
/// doubled to stay in the integers.
pub proof fn lemma_div_round_err(num: int, den: int)
    requires
        den > 0,
    ensures
        2 * abs_int(den * div_round_spec(num, den) - num) <= den,
{
    let h = den / 2;
    assert(2 * h <= den <= 2 * h + 1);
    if num >= 0 {
        let q = (num + h) / den;
        let m = (num + h) % den;
        assert(den * q + m == num + h && 0 <= m < den) by (nonlinear_arith)
            requires
                den > 0,
                num + h >= 0,
                q == (num + h) / den,
                m == (num + h) % den,
        ;
        assert(den * q - num == h - m);
    } else {
        let q = ((-num) + h) / den;
        let m = ((-num) + h) % den;
        assert(den * q + m == (-num) + h && 0 <= m < den) by (nonlinear_arith)
            requires
                den > 0,
                (-num) + h >= 0,
                q == ((-num) + h) / den,
                m == ((-num) + h) % den,
        ;
        assert(div_round_spec(num, den) == -q);
        assert(den * (-q) - num == -(den * q) - num) by (nonlinear_arith);
        assert(den * q - (-num) == h - m);
    }
}

/// A rounded quotient of a ratio no larger than `m` in magnitude is itself
/// no larger than `m`, and it keeps the numerator's sign.
pub proof fn lemma_div_round_mag(num: int, den: int, m: int)
    requires
        den > 0,
        m >= 0,
        abs_int(num) <= m * den,
    ensures
        abs_int(div_round_spec(num, den)) <= m,
        num >= 0 ==> div_round_spec(num, den) >= 0,
        num <= 0 ==> div_round_spec(num, den) <= 0,
{
    lemma_div_round_err(num, den);
    let q = div_round_spec(num, den);
    assert(abs_int(q) <= m) by (nonlinear_arith)
        requires
            den > 0,
            m >= 0,
            abs_int(num) <= m * den,
            2 * abs_int(den * q - num) <= den,
    ;
    if num >= 0 {
        assert(q >= 0) by (nonlinear_arith)
            requires
                den > 0,
                num >= 0,
                2 * abs_int(den * q - num) <= den,
        ;
    }
    if num <= 0 {
        assert(q <= 0) by (nonlinear_arith)
            requires
                den > 0,
                num <= 0,
                2 * abs_int(den * q - num) <= den,
        ;
    }
}

/// Applying the unnormalized rotation `(c, s)` to `(x, y)`: x component.
pub open spec fn rot_x(c: int, s: int, x: int, y: int) -> int {
    c * x - s * y
}

/// Applying the unnormalized rotation `(c, s)` to `(x, y)`: y component.
pub open spec fn rot_y(c: int, s: int, x: int, y: int) -> int {
    c * y + s * x
}

/// Rotating scales the squared norm by `c^2 + s^2`.
pub proof fn lemma_rot_norm(c: int, s: int, x: int, y: int)
    ensures
        rot_x(c, s, x, y) * rot_x(c, s, x, y) + rot_y(c, s, x, y) * rot_y(c, s, x, y) == (c * c + s
            * s) * (x * x + y * y),
{
    lemma_square_expand(c * x, s * y);
    lemma_square_expand(c * y, s * x);
    lemma_mul_rearrange(c, x, c, x);
    lemma_mul_rearrange(s, y, s, y);
    lemma_mul_rearrange(c, y, c, y);
    lemma_mul_rearrange(s, x, s, x);
    assert((c * x) * (s * y) == (c * y) * (s * x)) by (nonlinear_arith);
    lemma_distribute(c * c, s * s, x * x, y * y);
}

/// Swapping the coordinates and negating the sine part exchanges the two
/// rotation components.
pub proof fn lemma_rot_swap(c: int, s: int, x: int, y: int)
    ensures
        rot_x(c, -s, y, x) == rot_y(c, s, x, y),
        rot_x(c, s, y, x) == rot_y(c, -s, x, y),
{
    assert(rot_x(c, -s, y, x) == rot_y(c, s, x, y)) by (nonlinear_arith);
    assert(rot_x(c, s, y, x) == rot_y(c, -s, x, y)) by (nonlinear_arith);
}

/// Exact product of two machine words, widened.
pub fn mul_wide(a: i64, b: i64) -> (r: i128)
    ensures
        r == a * b,
{
    proof {
        assert(-0x4000_0000_0000_0000_0000_0000_0000_0000 <= (a as int) * (b as int)
            <= 0x4000_0000_0000_0000_0000_0000_0000_0000) by (nonlinear_arith)
            requires
                -0x8000_0000_0000_0000 <= a <= 0x7fff_ffff_ffff_ffff,
                -0x8000_0000_0000_0000 <= b <= 0x7fff_ffff_ffff_ffff,
        ;
    }
    (a as i128) * (b as i128)
}

/// Squaring a bounded value keeps it within the squared bound.
pub proof fn lemma_square_bound(v: int, b: int)
    requires
        -b <= v <= b,
        0 <= b,
    ensures
        0 <= v * v <= b * b,
{
    assert(0 <= v * v <= b * b) by (nonlinear_arith)
        requires
            -b <= v <= b,
            0 <= b,
    ;
}

/// Field-scale bound: realistic poses, balls and parameters stay within a
/// thousand world units of the origin.
pub const FIELD_LIMIT: i64 = 10_000_000;

/// Rounded division by a divisor of either sign.
pub open spec fn div_round_signed_spec(num: int, den: int) -> int
    recommends
        den != 0,
{
    if den < 0 {
        div_round_spec(-num, -den)
    } else {
        div_round_spec(num, den)
    }
}

/// Rounding a zero numerator yields zero.
pub proof fn lemma_div_round_zero(den: int)
    requires
        den > 0,
    ensures
        div_round_spec(0, den) == 0,
{
    vstd::arithmetic::div_mod::lemma_basic_div(den / 2, den);
}

/// Executable rounded division by a divisor of either sign.
pub fn div_round_signed_i128(num: i128, den: i128) -> (r: i128)
    requires
        den != 0,
        -0x1000_0000_0000_0000_0000_0000_0000_0000 <= den <= 0x1000_0000_0000_0000_0000_0000_0000_0000,
        -0x1000_0000_0000_0000_0000_0000_0000_0000 <= num <= 0x1000_0000_0000_0000_0000_0000_0000_0000,
    ensures
        r == div_round_signed_spec(num as int, den as int),
{
    if den < 0 {
        div_round_i128(-num, -den)
    } else {
        div_round_i128(num, den)
    }
}

pub open spec fn min_int(a: int, b: int) -> int {
    if a < b {
        a
    } else {
        b
    }
}

pub open spec fn max_int(a: int, b: int) -> int {
    if a < b {
        b
    } else {
        a
    }
}

/// Rearranging a product of four factors.
pub proof fn lemma_mul_rearrange(x: int, y: int, z: int, w: int)
    ensures
        (x * y) * (z * w) == (x * z) * (y * w),
{
    assert((x * y) * (z * w) == (x * z) * (y * w)) by (nonlinear_arith);
}

/// Squares of a sum and of a difference.
pub proof fn lemma_square_expand(p: int, q: int)
    ensures
        (p + q) * (p + q) == p * p + 2 * (p * q) + q * q,
        (p - q) * (p - q) == p * p - 2 * (p * q) + q * q,
{
    assert((p + q) * (p + q) == p * p + 2 * (p * q) + q * q) by (nonlinear_arith);
    assert((p - q) * (p - q) == p * p - 2 * (p * q) + q * q) by (nonlinear_arith);
}

/// Distributing a product of two-term factors.
pub proof fn lemma_distribute(p: int, q: int, r: int, s: int)
    ensures
        (p + q) * (r + s) == p * r + p * s + q * r + q * s,
        (p - q) * (r + s) == p * r + p * s - q * r - q * s,
{
    assert((p + q) * (r + s) == p * r + p * s + q * r + q * s) by (nonlinear_arith);
    assert((p - q) * (r + s) == p * r + p * s - q * r - q * s) by (nonlinear_arith);
}

} // verus!
