//! Q16.16 fixed-point arithmetic on `i64`.
//!
//! A value `v: i64` stands for the real number `v / 65536`. All operations
//! round toward negative infinity (Euclidean division) and saturate at the
//! `i64` range instead of overflowing, so every function here is total.

use vstd::prelude::*;

verus! {

/// One in the fixed-point scale: 2^16.
pub const FX_ONE: i64 = 65536;

/// Clamp an unbounded integer into the `i64` range.
pub open spec fn sat64(n: int) -> int {
    if n > i64::MAX {
        i64::MAX as int
    } else if n < i64::MIN {
        i64::MIN as int
    } else {
        n
    }
}

/// Fixed-point product: floor(a * b / 2^16), saturated.
pub open spec fn fx_mul_s(a: int, b: int) -> int {
    sat64((a * b) / (FX_ONE as int))
}

/// Fixed-point quotient: floor(a * 2^16 / b), saturated (b != 0).
pub open spec fn fx_div_s(a: int, b: int) -> int {
    sat64((a * (FX_ONE as int)) / b)
}

/// Saturating sum.
pub open spec fn fx_add_s(a: int, b: int) -> int {
    sat64(a + b)
}

/// Saturating difference.
pub open spec fn fx_sub_s(a: int, b: int) -> int {
    sat64(a - b)
}

/// Clamp `v` to the interval `[lo, hi]`.
pub open spec fn clamp_s(v: int, lo: int, hi: int) -> int {
    if v < lo {
        lo
    } else if v > hi {
        hi
    } else {
        v
    }
}

proof fn lemma_i64_product_fits_i128(a: i64, b: i64)
    by (nonlinear_arith)
    ensures
        i128::MIN <= (a as int) * (b as int) <= i128::MAX,
{
}

/// Narrow an `i128` into the `i64` range by clamping.
fn sat_i128_to_i64(q: i128) -> (r: i64)
    ensures
        r == sat64(q as int),
{
    if q > i64::MAX as i128 {
        i64::MAX
    } else if q < i64::MIN as i128 {
        i64::MIN
    } else {
        q as i64
    }
}

/// Fixed-point multiplication, rounding toward negative infinity and
/// saturating at the `i64` range.
pub fn fx_mul(a: i64, b: i64) -> (r: i64)
    ensures
        r == fx_mul_s(a as int, b as int),
{
    proof {
        lemma_i64_product_fits_i128(a, b);
    }
    let p: i128 = (a as i128) * (b as i128);
    let q: i128 = p.checked_div_euclid(FX_ONE as i128).unwrap();
    sat_i128_to_i64(q)
}

/// Fixed-point division, rounding toward negative infinity and saturating
/// at the `i64` range. The divisor must not be zero.
pub fn fx_div(a: i64, b: i64) -> (r: i64)
    requires
        b != 0,
    ensures
        r == fx_div_s(a as int, b as int),
{
    let p: i128 = (a as i128) * 65536;
    proof {
        assert(i64::MIN as int * FX_ONE as int <= p as int <= i64::MAX as int * FX_ONE as int)
            by (nonlinear_arith)
            requires
                p as int == a as int * 65536,
                i64::MIN <= a as int <= i64::MAX;
        lemma_div_euclid_in_range(p as int, b as int);
    }
    let q: i128 = match p.checked_div_euclid(b as i128) {
        Some(q) => q,
        None => 0,  // unreachable: |p / b| <= |p|
    };
    sat_i128_to_i64(q)
}

proof fn lemma_div_euclid_in_range(p: int, b: int)
    by (nonlinear_arith)
    requires
        b != 0,
        i64::MIN as int * FX_ONE as int <= p <= i64::MAX as int * FX_ONE as int,
    ensures
        i128::MIN <= p / b <= i128::MAX,
{
}

/// Saturating addition.
pub fn fx_add(a: i64, b: i64) -> (r: i64)
    ensures
        r == fx_add_s(a as int, b as int),
{
    let q: i128 = (a as i128) + (b as i128);
    sat_i128_to_i64(q)
}

/// Saturating subtraction.
pub fn fx_sub(a: i64, b: i64) -> (r: i64)
    ensures
        r == fx_sub_s(a as int, b as int),
{
    let q: i128 = (a as i128) - (b as i128);
    sat_i128_to_i64(q)
}

/// Clamp `v` to `[lo, hi]` (callers pass lo <= hi).
pub fn fx_clamp(v: i64, lo: i64, hi: i64) -> (r: i64)
    requires
        lo <= hi,
    ensures
        r == clamp_s(v as int, lo as int, hi as int),
{
    if v < lo {
        lo
    } else if v > hi {
        hi
    } else {
        v
    }
}

/// The integer square root: the unique r with r^2 <= n < (r+1)^2.
pub open spec fn isqrt_s(n: int) -> int {
    choose|r: int| 0 <= r && #[trigger] (r * r) <= n && n < (r + 1) * (r + 1)
}

proof fn lemma_isqrt_unique(n: int, r1: int, r2: int)
    by (nonlinear_arith)
    requires
        0 <= r1 && r1 * r1 <= n && n < (r1 + 1) * (r1 + 1),
        0 <= r2 && r2 * r2 <= n && n < (r2 + 1) * (r2 + 1),
    ensures
        r1 == r2,
{
}

/// Integer square root of a `u128`, by binary search.
pub fn isqrt(n: u128) -> (r: u64)
    ensures
        r * r <= n < ((r as int) + 1) * ((r as int) + 1),
        r == isqrt_s(n as int),
{
    let mut lo: u64 = 0;
    let mut hi: u64 = u64::MAX;
    proof {
        assert((u64::MAX as int + 1) * (u64::MAX as int + 1) > u128::MAX as int)
            by (nonlinear_arith);
    }
    while lo < hi
        invariant
            (lo as int) * (lo as int) <= n as int,
            (hi as int + 1) * (hi as int + 1) > n as int,
            lo <= hi,
        decreases hi - lo,
    {
        let mid: u64 = ((lo as u128 + hi as u128 + 1) / 2) as u64;
        proof {
            assert((mid as int) * (mid as int) <= u128::MAX as int) by (nonlinear_arith)
                requires
                    0 <= mid as int <= u64::MAX;
        }
        let sq: u128 = (mid as u128) * (mid as u128);
        if sq <= n {
            lo = mid;
        } else {
            hi = mid - 1;
        }
    }
    proof {
        let w = choose|w: int| 0 <= w && #[trigger] (w * w) <= n as int && (n as int) < (w + 1) * (w + 1);
        assert(0 <= lo as int && (lo as int) * (lo as int) <= n as int
            && (n as int) < (lo as int + 1) * (lo as int + 1));
        lemma_isqrt_unique(n as int, lo as int, w);
    }
    lo
}

} // verus!
