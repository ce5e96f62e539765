//! Q32.32 fixed-point arithmetic.
//!
//! A value is an `i64` holding the real number times 2^32. Products and
//! quotients are computed exactly in 128-bit intermediates, truncated
//! toward zero, and saturated to the `i64` range, so every operation is
//! total. Each executable operation is pinned to a specification function
//! that states its result exactly.

use vstd::prelude::*;

verus! {

use vstd::math::abs;

/// The value 1.0 in Q32.32: 2^32.
pub const FX_ONE: i64 = 0x1_0000_0000;

/// Saturation of a mathematical integer to the `i64` range.
pub open spec fn sat64(v: int) -> int {
    if v > i64::MAX {
        i64::MAX as int
    } else if v < i64::MIN {
        i64::MIN as int
    } else {
        v
    }
}

/// Quotient of `a` by `b`, truncated toward zero (`b != 0`).
pub open spec fn tdiv(a: int, b: int) -> int
    recommends
        b != 0,
{
    let q = abs(a) / abs(b);
    if (a < 0) != (b < 0) {
        -q
    } else {
        q as int
    }
}

/// Fixed-point product: `a * b / 2^32`, truncated toward zero, saturated.
pub open spec fn spec_fx_mul(a: int, b: int) -> int {
    sat64(tdiv(a * b, 0x1_0000_0000))
}

/// Fixed-point quotient: `a * 2^32 / b`, truncated toward zero, saturated.
pub open spec fn spec_fx_div(a: int, b: int) -> int
    recommends
        b != 0,
{
    sat64(tdiv(a * 0x1_0000_0000, b))
}

/// Saturating sum.
pub open spec fn spec_sat_add(a: int, b: int) -> int {
    sat64(a + b)
}

/// Saturating difference.
pub open spec fn spec_sat_sub(a: int, b: int) -> int {
    sat64(a - b)
}

/// Magnitude of an `i64` as a `u128`.
pub(crate) fn abs_u128(a: i64) -> (r: u128)
    ensures
        r == abs(a as int),
{
    if a >= 0 {
        a as u128
    } else if a == i64::MIN {
        0x8000_0000_0000_0000u128
    } else {
        (-a) as u128
    }
}

/// Saturating narrowing of a sign-magnitude value to `i64`.
fn sat_narrow(neg: bool, mag: u128) -> (r: i64)
    ensures
        r as int == sat64(if neg { -(mag as int) } else { mag as int }),
{
    if neg {
        if mag >= 0x8000_0000_0000_0000u128 {
            i64::MIN
        } else {
            -(mag as i64)
        }
    } else {
        if mag > i64::MAX as u128 {
            i64::MAX
        } else {
            mag as i64
        }
    }
}

proof fn lemma_sign_magnitude_product(a: int, b: int)
    ensures
        abs(a * b) == abs(a) * abs(b),
        a * b < 0 <==> (a < 0) != (b < 0) && a != 0 && b != 0,
{
    if a >= 0 && b >= 0 {
        assert(a * b >= 0) by (nonlinear_arith)
            requires
                a >= 0 && b >= 0,
        ;
    } else if a >= 0 && b < 0 {
        assert(a * b <= 0 && -(a * b) == a * (-b) && (a > 0 ==> a * b < 0)) by (nonlinear_arith)
            requires
                a >= 0 && b < 0,
        ;
    } else if a < 0 && b >= 0 {
        assert(a * b <= 0 && -(a * b) == (-a) * b && (b > 0 ==> a * b < 0)) by (nonlinear_arith)
            requires
                a < 0 && b >= 0,
        ;
    } else {
        assert(a * b > 0 && a * b == (-a) * (-b)) by (nonlinear_arith)
            requires
                a < 0 && b < 0,
        ;
    }
}

/// Fixed-point product, exact per `spec_fx_mul`.
pub fn fx_mul(a: i64, b: i64) -> (r: i64)
    ensures
        r as int == spec_fx_mul(a as int, b as int),
{
    let neg = (a < 0) != (b < 0);
    let ma = abs_u128(a);
    let mb = abs_u128(b);
    proof {
        lemma_sign_magnitude_product(a as int, b as int);
        assert(abs(a as int) * abs(b as int) <= 0x8000_0000_0000_0000 * 0x8000_0000_0000_0000)
            by (nonlinear_arith)
            requires
                abs(a as int) <= 0x8000_0000_0000_0000,
                abs(b as int) <= 0x8000_0000_0000_0000,
        ;
    }
    let p: u128 = ma * mb;
    let q: u128 = p / 0x1_0000_0000u128;
    proof {
        if a == 0 || b == 0 {
            assert(a as int * b as int == 0) by (nonlinear_arith)
                requires
                    a == 0 || b == 0,
            ;
        }
    }
    sat_narrow(neg && q > 0, q)
}

/// Fixed-point quotient, exact per `spec_fx_div`; requires `b != 0`.
pub fn fx_div(a: i64, b: i64) -> (r: i64)
    requires
        b != 0,
    ensures
        r as int == spec_fx_div(a as int, b as int),
{
    let neg = (a < 0) != (b < 0);
    let ma = abs_u128(a);
    let mb = abs_u128(b);
    let p: u128 = ma * 0x1_0000_0000u128;
    let q: u128 = p / mb;
    proof {
        lemma_sign_magnitude_product(a as int, 0x1_0000_0000);
        assert(abs(a as int * 0x1_0000_0000) / abs(b as int) == q);
    }
    sat_narrow(neg && q > 0, q)
}

/// Saturating sum, exact per `spec_sat_add`.
pub fn sat_add(a: i64, b: i64) -> (r: i64)
    ensures
        r as int == spec_sat_add(a as int, b as int),
{
    let s: i128 = a as i128 + b as i128;
    if s > i64::MAX as i128 {
        i64::MAX
    } else if s < i64::MIN as i128 {
        i64::MIN
    } else {
        s as i64
    }
}

/// Saturating difference, exact per `spec_sat_sub`.
pub fn sat_sub(a: i64, b: i64) -> (r: i64)
    ensures
        r as int == spec_sat_sub(a as int, b as int),
{
    let s: i128 = a as i128 - b as i128;
    if s > i64::MAX as i128 {
        i64::MAX
    } else if s < i64::MIN as i128 {
        i64::MIN
    } else {
        s as i64
    }
}

/// Saturating narrowing of an `i128` to `i64`, exact per `sat64`.
pub fn sat_i128(v: i128) -> (r: i64)
    ensures
        r as int == sat64(v as int),
{
    if v > i64::MAX as i128 {
        i64::MAX
    } else if v < i64::MIN as i128 {
        i64::MIN
    } else {
        v as i64
    }
}

/// A fixed-point product of nonnegative factors is nonnegative.
pub proof fn lemma_fx_mul_nonneg(a: int, b: int)
    requires
        a >= 0,
        b >= 0,
    ensures
        spec_fx_mul(a, b) >= 0,
{
    assert(a * b >= 0) by (nonlinear_arith)
        requires
            a >= 0,
            b >= 0,
    ;
}

/// A fixed-point quotient of a nonnegative value by a positive one is
/// nonnegative.
pub proof fn lemma_fx_div_nonneg(a: int, b: int)
    requires
        a >= 0,
        b > 0,
    ensures
        spec_fx_div(a, b) >= 0,
{
    assert(a * 0x1_0000_0000 >= 0) by (nonlinear_arith)
        requires
            a >= 0,
    ;
}

/// The integer square root: the unique `r` with `r^2 <= v < (r+1)^2`.
pub open spec fn spec_isqrt(v: nat) -> nat {
    choose|r: nat| #[trigger] (r * r) <= v < (r + 1) * (r + 1)
}

proof fn lemma_isqrt_unique(v: nat, r: nat)
    requires
        r * r <= v < (r + 1) * (r + 1),
    ensures
        spec_isqrt(v) == r,
{
    assert(exists|q: nat| #[trigger] (q * q) <= v < (q + 1) * (q + 1)) by {
        assert(r * r <= v < (r + 1) * (r + 1));
    }
    let s = spec_isqrt(v);
    assert(s * s <= v < (s + 1) * (s + 1));
    if s < r {
        assert((s + 1) * (s + 1) <= r * r) by (nonlinear_arith)
            requires
                s + 1 <= r,
        ;
    }
    if r < s {
        assert((r + 1) * (r + 1) <= s * s) by (nonlinear_arith)
            requires
                r + 1 <= s,
        ;
    }
}

/// Integer square root of a `u128`, exact per `spec_isqrt`.
pub fn isqrt128(v: u128) -> (r: u64)
    ensures
        r as nat == spec_isqrt(v as nat),
{
    let mut lo: u128 = 0;
    let mut hi: u128 = 0x1_0000_0000_0000_0000u128;
    proof {
        assert(hi * hi > u128::MAX) by (nonlinear_arith)
            requires
                hi == 0x1_0000_0000_0000_0000u128,
        ;
    }
    while hi - lo > 1
        invariant
            lo < hi <= 0x1_0000_0000_0000_0000u128,
            lo * lo <= v as nat,
            (v as nat) < hi * hi,
        decreases hi - lo,
    {
        let mid: u128 = lo + (hi - lo) / 2;
        proof {
            assert(mid < hi);
            assert(mid * mid < 0x1_0000_0000_0000_0000 * 0x1_0000_0000_0000_0000)
                by (nonlinear_arith)
                requires
                    mid < 0x1_0000_0000_0000_0000,
            ;
        }
        if mid <= v / mid {
            proof {
                vstd::arithmetic::div_mod::lemma_fundamental_div_mod(v as int, mid as int);
                assert(mid * mid <= v as nat) by (nonlinear_arith)
                    requires
                        mid >= 1,
                        mid <= (v as int) / (mid as int),
                        v == ((v as int) / (mid as int)) * mid + ((v as int) % (mid as int)),
                        (v as int) % (mid as int) >= 0,
                ;
            }
            lo = mid;
        } else {
            proof {
                vstd::arithmetic::div_mod::lemma_fundamental_div_mod(v as int, mid as int);
                assert((v as nat) < mid * mid) by (nonlinear_arith)
                    requires
                        mid >= 1,
                        mid > (v as int) / (mid as int),
                        v == ((v as int) / (mid as int)) * mid + ((v as int) % (mid as int)),
                        (v as int) % (mid as int) < (mid as int),
                ;
            }
            hi = mid;
        }
    }
    proof {
        assert(hi == lo + 1);
        lemma_isqrt_unique(v as nat, lo as nat);
    }
    lo as u64
}

} // verus!
