//! Fixed-point arithmetic shared by the whole crate: rounded-down division,
//! integer square roots, and the conversions between a time span and the
//! distance that light travels in it.
use vstd::prelude::*;
use vstd::arithmetic::div_mod::lemma_fundamental_div_mod_converse;

verus! {

/// Speed of light in vacuum, in metres per second.
pub const SPEED_OF_LIGHT: i64 = 299_792_458;

/// Nanoseconds in one second.
pub const NANOS_PER_SECOND: i64 = 1_000_000_000;

/// Nanoseconds in one millisecond, which is also the number of
/// millimetre-nanoseconds in one metre-second.
pub const NANOS_PER_MILLI: i64 = 1_000_000;

/// Scale of a direction cosine: `UNIT` stands for 1.
pub const UNIT: i64 = 1_000_000_000;

/// Time, in whole nanoseconds rounded down, that light needs for `range`
/// millimetres.
pub open spec fn range_to_nanos(range: int) -> int {
    (range * 1_000_000) / 299_792_458
}

/// Distance, in whole millimetres rounded down, that light travels in
/// `nanos` nanoseconds.
pub open spec fn nanos_to_range(nanos: int) -> int {
    (nanos * 299_792_458) / 1_000_000
}

/// `root` is the square root of `n`, rounded down.
pub open spec fn is_floor_sqrt(n: int, root: int) -> bool {
    &&& 0 <= root
    &&& root * root <= n
    &&& n < (root + 1) * (root + 1)
}

/// The square root of `n`, rounded down.
pub open spec fn floor_sqrt(n: int) -> int {
    choose|root: int| is_floor_sqrt(n, root)
}

/// Squaring is monotonic on the non-negative integers.
pub proof fn lemma_square_monotonic(a: int, b: int)
    requires
        0 <= a <= b,
    ensures
        a * a <= b * b,
{
    assert(a * a <= b * b) by (nonlinear_arith)
        requires
            0 <= a <= b,
    ;
}

/// A number has at most one rounded-down square root, so a root that was
/// found is `floor_sqrt`.
pub proof fn lemma_floor_sqrt_unique(n: int, root: int)
    requires
        is_floor_sqrt(n, root),
    ensures
        floor_sqrt(n) == root,
{
    let other = floor_sqrt(n);
    assert(is_floor_sqrt(n, other));
    if other < root {
        lemma_square_monotonic(other + 1, root);
    } else if root < other {
        lemma_square_monotonic(root + 1, other);
    }
}

/// Quotient of `a` by a positive `b`, rounded towards minus infinity.
pub fn floor_div(a: i128, b: i128) -> (q: i128)
    requires
        b > 0,
    ensures
        q == a / b,
{
    if a >= 0 {
        a / b
    } else {
        // -(a + 1) is in 0 ..= i128::MAX, so nothing below overflows.
        let m: i128 = -(a + 1);
        let k: i128 = m / b;
        let q: i128 = -k - 1;
        proof {
            let r = m % b;
            assert(m == b * k + r && 0 <= r < b) by {
                vstd::arithmetic::div_mod::lemma_fundamental_div_mod(m as int, b as int);
            }
            assert(a == q * b + (b - 1 - r)) by (nonlinear_arith)
                requires
                    m == -(a + 1),
                    m == b * k + r,
                    q == -k - 1,
            ;
            lemma_fundamental_div_mod_converse(a as int, b as int, q as int, b - 1 - r);
        }
        q
    }
}

/// Square root of `n`, rounded down.
pub fn isqrt(n: u128) -> (root: u64)
    ensures
        root == floor_sqrt(n as int),
        is_floor_sqrt(n as int, root as int),
{
    let mut low: u128 = 0;
    let mut high: u128 = 0x1_0000_0000_0000_0000;
    assert(n < high * high) by (nonlinear_arith)
        requires
            high == 0x1_0000_0000_0000_0000u128,
            n <= u128::MAX,
    ;
    while high - low > 1
        invariant
            low < high <= 0x1_0000_0000_0000_0000,
            low * low <= n < high * high,
        decreases high - low,
    {
        let mid: u128 = low + (high - low) / 2;
        assert(mid * mid < 0x1_0000_0000_0000_0000_0000_0000_0000_0000) by (nonlinear_arith)
            requires
                0 <= mid < 0x1_0000_0000_0000_0000,
        ;
        if mid * mid <= n {
            low = mid;
        } else {
            high = mid;
        }
    }
    proof {
        lemma_floor_sqrt_unique(n as int, low as int);
    }
    low as u64
}

/// Time that light needs for `range` millimetres, in nanoseconds.
pub fn flight_time(range: i64) -> (nanos: i64)
    ensures
        nanos == range_to_nanos(range as int),
{
    assert(i128::MIN <= range * NANOS_PER_MILLI <= i128::MAX) by (nonlinear_arith)
        requires
            i64::MIN <= range <= i64::MAX,
            NANOS_PER_MILLI == 1_000_000,
    ;
    let scaled: i128 = (range as i128) * (NANOS_PER_MILLI as i128);
    let nanos: i128 = floor_div(scaled, SPEED_OF_LIGHT as i128);
    assert(i64::MIN <= nanos <= i64::MAX) by {
        assert(i64::MIN * 299_792_458 <= scaled <= i64::MAX * 299_792_458) by (nonlinear_arith)
            requires
                scaled == range * 1_000_000,
                i64::MIN <= range <= i64::MAX,
        ;
        lemma_floor_div_bounds(scaled as int, 299_792_458, i64::MIN as int, i64::MAX as int);
    }
    nanos as i64
}

/// Distance that light travels in `nanos` nanoseconds, in millimetres.
pub fn light_travel(nanos: i64) -> (range: i128)
    ensures
        range == nanos_to_range(nanos as int),
        -2_765_100_000_000_000_000_000 <= range <= 2_765_100_000_000_000_000_000,
{
    assert(i128::MIN <= nanos * SPEED_OF_LIGHT <= i128::MAX) by (nonlinear_arith)
        requires
            i64::MIN <= nanos <= i64::MAX,
            SPEED_OF_LIGHT == 299_792_458,
    ;
    let scaled: i128 = (nanos as i128) * (SPEED_OF_LIGHT as i128);
    let range: i128 = floor_div(scaled, NANOS_PER_MILLI as i128);
    proof {
        assert(-2_765_100_000_000_000_000_000 * 1_000_000 <= scaled
            <= 2_765_100_000_000_000_000_000 * 1_000_000) by (nonlinear_arith)
            requires
                scaled == nanos * 299_792_458,
                i64::MIN <= nanos <= i64::MAX,
        ;
        lemma_floor_div_bounds(
            scaled as int,
            1_000_000,
            -2_765_100_000_000_000_000_000,
            2_765_100_000_000_000_000_000,
        );
    }
    range
}

/// A rounded-down quotient lies between two bounds when the dividend lies
/// between their multiples of the divisor.
pub proof fn lemma_floor_div_bounds(a: int, b: int, low: int, high: int)
    requires
        b > 0,
        low * b <= a,
        a <= high * b,
    ensures
        low <= a / b <= high,
{
    vstd::arithmetic::div_mod::lemma_fundamental_div_mod(a, b);
    let q = a / b;
    let r = a % b;
    assert(a == b * q + r && 0 <= r < b);
    assert(low <= q) by (nonlinear_arith)
        requires
            b > 0,
            low * b <= a,
            a == b * q + r,
            r < b,
    ;
    assert(q <= high) by (nonlinear_arith)
        requires
            b > 0,
            a <= high * b,
            a == b * q + r,
            0 <= r,
    ;
}

} // verus!
