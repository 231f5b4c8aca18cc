//! Units of the fixed-point representation and the scaled arithmetic that
//! every component shares.

use vstd::prelude::*;

verus! {

/// Steps in one world unit: lengths, coordinates, health, energy and damage
/// are counted in thousandths.
pub const UNIT: u32 = 1000;

/// The ratio that stands for the whole (1.0).
pub const WHOLE: u32 = 1000;

/// Nanoseconds in one second; rates are per second.
pub const NANOS_PER_SECOND: u64 = 1_000_000_000;

/// The smaller of two integers.
pub open spec fn min_int(a: int, b: int) -> int {
    if a <= b { a } else { b }
}

/// The larger of two integers.
pub open spec fn max_int(a: int, b: int) -> int {
    if a >= b { a } else { b }
}

/// `v` held to the range of an unsigned 32-bit amount.
pub open spec fn saturated(v: int) -> int {
    if v < 0 { 0 } else if v > u32::MAX { u32::MAX as int } else { v }
}

/// What accrues over `delta_ns` nanoseconds at `rate` per second, rounded
/// down to a whole step.
pub open spec fn accrued(rate: int, delta_ns: int) -> int {
    (rate * delta_ns) / 1_000_000_000
}

/// The part `ratio` (in thousandths) of `amount`, rounded down.
pub open spec fn portion(amount: int, ratio: int) -> int {
    (amount * ratio) / 1000
}

/// Whether `r` is the largest integer whose square does not exceed `n`.
pub open spec fn is_floor_sqrt(n: int, r: int) -> bool {
    0 <= r && r * r <= n && n < (r + 1) * (r + 1)
}

/// The square root of `n`, rounded down.
pub open spec fn floor_sqrt(n: int) -> int {
    choose|r: int| is_floor_sqrt(n, r)
}

/// `a / b` rounded toward zero, for a positive `b`.
pub open spec fn toward_zero(a: int, b: int) -> int {
    if a >= 0 { a / b } else { -((-a) / b) }
}

proof fn lemma_product_bound(a: int, b: int, ma: int, mb: int)
    by (nonlinear_arith)
    requires
        0 <= a <= ma,
        0 <= b <= mb,
    ensures
        0 <= a * b <= ma * mb,
{
}

/// On the non-negative integers a smaller square has a smaller base.
pub proof fn lemma_square_strict(a: int, b: int)
    by (nonlinear_arith)
    requires
        0 <= a,
        0 <= b,
        a * a < b * b,
    ensures
        a < b,
{
}

/// A number has one rounded-down square root: whatever satisfies
/// [`is_floor_sqrt`] is [`floor_sqrt`].
pub proof fn lemma_floor_sqrt_unique(n: int, r: int)
    requires
        is_floor_sqrt(n, r),
    ensures
        floor_sqrt(n) == r,
{
    let c = floor_sqrt(n);
    assert(is_floor_sqrt(n, c));
    lemma_square_strict(r, c + 1);
    lemma_square_strict(c, r + 1);
}

/// Every non-negative number has a rounded-down square root.
pub proof fn lemma_floor_sqrt_exists(n: int)
    requires
        n >= 0,
    ensures
        is_floor_sqrt(n, floor_sqrt(n)),
    decreases n,
{
    if n == 0 {
        assert(is_floor_sqrt(0, 0));
    } else {
        lemma_floor_sqrt_exists(n - 1);
        let r = floor_sqrt(n - 1);
        if (r + 1) * (r + 1) <= n {
            assert((r + 2) * (r + 2) > (r + 1) * (r + 1)) by (nonlinear_arith)
                requires
                    r >= 0,
            ;
            assert(is_floor_sqrt(n, r + 1));
        } else {
            assert(is_floor_sqrt(n, r));
        }
    }
}

/// The amount accrued at `rate` per second over `delta_ns` nanoseconds,
/// saturating at the largest amount.
pub fn scale_rate(rate: u32, delta_ns: u64) -> (r: u32)
    ensures
        r == saturated(accrued(rate as int, delta_ns as int)),
{
    proof {
        lemma_product_bound(rate as int, delta_ns as int, u32::MAX as int, u64::MAX as int);
    }
    let product: u128 = (rate as u128) * (delta_ns as u128);
    let whole: u128 = product / 1_000_000_000u128;
    if whole > u32::MAX as u128 {
        u32::MAX
    } else {
        whole as u32
    }
}

/// The part `ratio` (in thousandths) of `amount`, rounded down.
pub fn fraction_of(amount: u32, ratio: u32) -> (r: u64)
    ensures
        r == portion(amount as int, ratio as int),
{
    proof {
        lemma_product_bound(amount as int, ratio as int, u32::MAX as int, u32::MAX as int);
    }
    let product: u64 = (amount as u64) * (ratio as u64);
    product / 1000u64
}

/// Integer square root: the largest `r` with `r * r <= n`.
pub fn isqrt(n: u128) -> (r: u64)
    ensures
        is_floor_sqrt(n as int, r as int),
        r == floor_sqrt(n as int),
{
    let mut lo: u128 = 0;
    let mut hi: u128 = 0x1_0000_0000_0000_0000u128;
    while hi - lo > 1
        invariant
            lo < hi <= 0x1_0000_0000_0000_0000u128,
            lo * lo <= n,
            n < hi * hi,
        decreases hi - lo,
    {
        let mid: u128 = lo + (hi - lo) / 2;
        proof {
            lemma_product_bound(mid as int, mid as int, u64::MAX as int, u64::MAX as int);
        }
        if mid * mid <= n {
            lo = mid;
        } else {
            hi = mid;
        }
    }
    proof {
        lemma_floor_sqrt_unique(n as int, lo as int);
    }
    lo as u64
}

} // verus!
