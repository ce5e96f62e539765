//! Transcendental kernels in Q32.32 fixed point.
//!
//! Base-2 logarithm and exponential, the decaying exponential, sine and
//! cosine, and a positive real power. Each executable function is pinned
//! exactly to a specification function that restates its computation over
//! the saturating fixed-point model; polynomial kernels use classical
//! series whose truncation error is far below audio tolerances.

use vstd::prelude::*;

verus! {

use vstd::arithmetic::power2::pow2;
use vstd::arithmetic::power2::lemma_pow2_adds;
use vstd::arithmetic::power2::lemma_pow2_strictly_increases;
use vstd::arithmetic::power2::lemma2_to64;
use vstd::arithmetic::power2::lemma2_to64_rest;
use vstd::arithmetic::div_mod::lemma_fundamental_div_mod;
use vstd::arithmetic::div_mod::lemma_fundamental_div_mod_converse;
use vstd::arithmetic::div_mod::lemma_multiply_divide_lt;
use vstd::arithmetic::mul::lemma_mul_inequality;
use vstd::arithmetic::div_mod::lemma_div_denominator;
use vstd::arithmetic::div_mod::lemma_basic_div;
use crate::fixed::FX_ONE;
use crate::fixed::sat64;
use crate::fixed::spec_fx_mul;
use crate::fixed::spec_fx_div;
use crate::fixed::spec_sat_add;
use crate::fixed::spec_sat_sub;
use crate::fixed::fx_mul;
use crate::fixed::fx_div;
use crate::fixed::sat_add;
use crate::fixed::sat_sub;

/// pi/2 in Q32.32.
pub const FX_HALF_PI: i64 = 6746518852;

/// 2*pi in Q32.32, an exact multiple of `FX_HALF_PI` so that quadrant
/// reduction is exact.
pub const FX_TWO_PI: i64 = 4 * FX_HALF_PI;

/// 2 * log2(e) in Q32.32.
pub const FX_TWO_LOG2E: i64 = 12392656037;

/// log2(e) in Q32.32.
pub const FX_LOG2E: i64 = 6196328019;

/// ln(2) in Q32.32.
pub const FX_LN2: i64 = 2977044472;

/// log2(10) in Q32.32.
pub const FX_LOG2_10: i64 = 14267572527;

/// log10(2) in Q32.32.
pub const FX_LOG10_2: i64 = 1292913986;

// Coefficients 1/3, 1/5, 1/7, 1/9 of the atanh series, Q32.32.
pub const AT_3: i64 = 1431655765;

pub const AT_5: i64 = 858993459;

pub const AT_7: i64 = 613566757;

pub const AT_9: i64 = 477218588;

// Coefficients 1/2! .. 1/7! of the exponential series, Q32.32.
pub const EXP_2: i64 = 2147483648;

pub const EXP_3: i64 = 715827883;

pub const EXP_4: i64 = 178956971;

pub const EXP_5: i64 = 35791394;

pub const EXP_6: i64 = 5965232;

pub const EXP_7: i64 = 852176;

// Cosine series coefficients 1/2!, 1/4!, 1/6!, 1/8!, Q32.32.
pub const COS_2: i64 = 2147483648;

pub const COS_4: i64 = 178956971;

pub const COS_6: i64 = 5965232;

pub const COS_8: i64 = 106522;

// Sine series coefficients 1/3!, 1/5!, 1/7!, 1/9!, Q32.32.
pub const SIN_3: i64 = 715827883;

pub const SIN_5: i64 = 35791394;

pub const SIN_7: i64 = 852176;

pub const SIN_9: i64 = 11836;

/// Floor of the base-2 logarithm of a positive integer.
pub open spec fn log2_floor(n: nat) -> nat
    decreases n,
{
    if n < 2 {
        0
    } else {
        1 + log2_floor(n / 2)
    }
}

/// `log2_floor` brackets its argument between consecutive powers of two.
proof fn lemma_log2_floor_bounds(n: nat)
    requires
        n >= 1,
    ensures
        pow2(log2_floor(n)) <= n < pow2(log2_floor(n) + 1),
    decreases n,
{
    lemma2_to64();
    if n < 2 {
    } else {
        lemma_log2_floor_bounds(n / 2);
        let e = log2_floor(n / 2);
        lemma_fundamental_div_mod(n as int, 2);
        assert(pow2(e + 1) == 2 * pow2(e)) by {
            lemma_pow2_adds(e, 1);
        }
        assert(pow2(e + 2) == 2 * pow2(e + 1)) by {
            lemma_pow2_adds(e + 1, 1);
        }
    }
}

/// The bracketing exponent is unique.
proof fn lemma_log2_floor_unique(n: nat, e: nat)
    requires
        pow2(e) <= n < pow2(e + 1),
    ensures
        log2_floor(n) == e,
{
    vstd::arithmetic::power2::lemma_pow2_pos(e);
    lemma_log2_floor_bounds(n);
    let f = log2_floor(n);
    if f < e {
        lemma_pow2_strictly_increases(f + 1, e + 1);
        assert(pow2(f + 1) <= pow2(e)) by {
            if f + 1 < e {
                lemma_pow2_strictly_increases(f + 1, e);
            }
        }
    }
    if e < f {
        assert(pow2(e + 1) <= pow2(f)) by {
            if e + 1 < f {
                lemma_pow2_strictly_increases(e + 1, f);
            }
        }
    }
}

/// 2^k as a `u64`, exact per `pow2`.
fn pow2_u64(k: u64) -> (r: u64)
    requires
        k <= 63,
    ensures
        r as nat == pow2(k as nat),
{
    proof {
        lemma2_to64();
        lemma2_to64_rest();
        if k < 63 {
            lemma_pow2_strictly_increases(k as nat, 63);
        }
        vstd::bits::lemma_u64_shl_is_mul(1u64, k);
    }
    1u64 << k
}

/// The base-2 logarithm of a positive Q32.32 value: normalization to
/// [1, 2), then the atanh series for the fractional part.
pub open spec fn spec_log2(u: int) -> int
    recommends
        u >= 1,
{
    let q = log2_floor((u * 0x1_0000_0000) as nat);
    let m = (u * 0x1_0000_0000) / pow2((q - 32) as nat) as int;
    let t = spec_fx_div(m - 0x1_0000_0000, m + 0x1_0000_0000);
    let s = spec_fx_mul(t, t);
    let h7 = spec_sat_add(AT_7 as int, spec_fx_mul(s, AT_9 as int));
    let h5 = spec_sat_add(AT_5 as int, spec_fx_mul(s, h7));
    let h3 = spec_sat_add(AT_3 as int, spec_fx_mul(s, h5));
    let h1 = spec_sat_add(0x1_0000_0000, spec_fx_mul(s, h3));
    let p = spec_fx_mul(t, h1);
    spec_sat_add((q - 64) * 0x1_0000_0000, spec_fx_mul(FX_TWO_LOG2E as int, p))
}

/// Base-2 logarithm of a positive Q32.32 value, exact per `spec_log2`.
pub fn log2fx(u: i64) -> (r: i64)
    requires
        u >= 1,
    ensures
        r as int == spec_log2(u as int),
{
    let m0: u128 = (u as u128) * 0x1_0000_0000u128;
    let mut m: u128 = m0;
    let mut k: u64 = 0;
    proof {
        lemma2_to64();
        lemma_basic_div(0, 1);
        assert(m0 as int / pow2(0) as int == m0 as int) by {
            assert(pow2(0) == 1);
            vstd::arithmetic::div_mod::lemma_div_basics(m0 as int);
        }
    }
    while m >= 0x2_0000_0000u128
        invariant
            u >= 1,
            m0 == (u as int) * 0x1_0000_0000,
            m0 < 0x8000_0000_0000_0000_0000_0000u128,
            k <= 62,
            m as int == m0 as int / pow2(k as nat) as int,
            m >= 0x1_0000_0000u128,
        decreases m,
    {
        proof {
            lemma2_to64();
            lemma2_to64_rest();
            vstd::arithmetic::power2::lemma_pow2_pos(k as nat);
            let p = pow2(k as nat) as int;
            // m >= 2^33 and m == m0/p and m0 < 2^95 force p < 2^62, so k < 62.
            if (m0 as int) < p * 0x2_0000_0000 {
                lemma_multiply_divide_lt(m0 as int, p, 0x2_0000_0000);
            }
            assert(p * 0x2_0000_0000 <= m0 as int);
            if k >= 62 {
                assert(pow2(62) <= pow2(k as nat)) by {
                    if k > 62 {
                        lemma_pow2_strictly_increases(62, k as nat);
                    }
                }
                assert(pow2(62) * 0x2_0000_0000 == pow2(95)) by {
                    lemma_pow2_adds(62, 33);
                }
                lemma_mul_inequality(pow2(62) as int, p, 0x2_0000_0000);
                assert(pow2(62) * 0x2_0000_0000 <= p * 0x2_0000_0000) by (nonlinear_arith)
                    requires
                        pow2(62) <= p,
                ;
            }
            // m/2 == m0 / 2^(k+1)
            lemma_div_denominator(m0 as int, p, 2);
            lemma_pow2_adds(k as nat, 1);
        }
        m = m / 2;
        k = k + 1;
    }
    proof {
        lemma2_to64();
        lemma2_to64_rest();
        let p = pow2(k as nat) as int;
        vstd::arithmetic::power2::lemma_pow2_pos(k as nat);
        // 2^32 <= m < 2^33 pins k + 32 as log2_floor(m0).
        if (m0 as int) < p * 0x1_0000_0000 {
            lemma_multiply_divide_lt(m0 as int, p, 0x1_0000_0000);
        }
        assert(p * 0x1_0000_0000 <= m0 as int);
        assert(pow2((k as nat) + 32) <= m0 as nat) by {
            lemma_pow2_adds(k as nat, 32);
            assert(p * 0x1_0000_0000 == pow2(k as nat) * pow2(32));
        }
        assert((m0 as nat) < pow2((k as nat) + 33)) by {
            lemma_fundamental_div_mod(m0 as int, p);
            assert(m0 as int == p * (m0 as int / p) + m0 as int % p);
            assert(m0 as int / p <= 0x2_0000_0000 - 1);
            lemma_mul_inequality(m0 as int / p, 0x2_0000_0000 - 1, p);
            assert((m0 as int / p) * p <= (0x2_0000_0000 - 1) * p) by (nonlinear_arith)
                requires
                    m0 as int / p <= 0x2_0000_0000 - 1,
                    p > 0,
            ;
            assert(p * (m0 as int / p) == (m0 as int / p) * p) by (nonlinear_arith);
            assert((0x2_0000_0000 - 1) * p + p == 0x2_0000_0000 * p) by (nonlinear_arith);
            lemma_pow2_adds(33, k as nat);
        }
        lemma_log2_floor_unique(m0 as nat, (k as nat) + 32);
    }
    let mi: i64 = m as i64;
    let t = fx_div(mi - FX_ONE, mi + FX_ONE);
    let s = fx_mul(t, t);
    let h7 = sat_add(AT_7, fx_mul(s, AT_9));
    let h5 = sat_add(AT_5, fx_mul(s, h7));
    let h3 = sat_add(AT_3, fx_mul(s, h5));
    let h1 = sat_add(FX_ONE, fx_mul(s, h3));
    let p = fx_mul(t, h1);
    let ki: i64 = k as i64;
    sat_add((ki - 32) * FX_ONE, fx_mul(FX_TWO_LOG2E, p))
}

/// 2^f for a fraction f in [0, 1): the exponential series on f*ln(2),
/// clamped into [1, 2).
pub open spec fn spec_exp2_frac(f: int) -> int
    recommends
        0 <= f < 0x1_0000_0000,
{
    let w = spec_fx_mul(f, FX_LN2 as int);
    let h6 = spec_sat_add(EXP_6 as int, spec_fx_mul(w, EXP_7 as int));
    let h5 = spec_sat_add(EXP_5 as int, spec_fx_mul(w, h6));
    let h4 = spec_sat_add(EXP_4 as int, spec_fx_mul(w, h5));
    let h3 = spec_sat_add(EXP_3 as int, spec_fx_mul(w, h4));
    let h2 = spec_sat_add(EXP_2 as int, spec_fx_mul(w, h3));
    let h1 = spec_sat_add(0x1_0000_0000, spec_fx_mul(w, h2));
    let h0 = spec_sat_add(0x1_0000_0000, spec_fx_mul(w, h1));
    if h0 < 0x1_0000_0000 {
        0x1_0000_0000
    } else if h0 > 0x1_FFFF_FFFF {
        0x1_FFFF_FFFF
    } else {
        h0
    }
}

/// 2^f for f in [0, 1), exact per `spec_exp2_frac`; result is in [1, 2).
pub fn exp2_frac(f: i64) -> (r: i64)
    requires
        0 <= f < 0x1_0000_0000,
    ensures
        r as int == spec_exp2_frac(f as int),
        FX_ONE <= r < 2 * FX_ONE,
{
    let w = fx_mul(f, FX_LN2);
    let h6 = sat_add(EXP_6, fx_mul(w, EXP_7));
    let h5 = sat_add(EXP_5, fx_mul(w, h6));
    let h4 = sat_add(EXP_4, fx_mul(w, h5));
    let h3 = sat_add(EXP_3, fx_mul(w, h4));
    let h2 = sat_add(EXP_2, fx_mul(w, h3));
    let h1 = sat_add(FX_ONE, fx_mul(w, h2));
    let h0 = sat_add(FX_ONE, fx_mul(w, h1));
    if h0 < FX_ONE {
        FX_ONE
    } else if h0 > 0x1_FFFF_FFFFi64 {
        0x1_FFFF_FFFFi64
    } else {
        h0
    }
}

/// 2^z for any Q32.32 exponent z, saturated to the representable range:
/// split z into integer and fractional parts, scale `spec_exp2_frac` by
/// the integer power of two.
pub open spec fn spec_exp2(z: int) -> int {
    let k = z / 0x1_0000_0000;
    let f = z - k * 0x1_0000_0000;
    let m = spec_exp2_frac(f);
    if k >= 63 {
        i64::MAX as int
    } else if k >= 0 {
        sat64(m * pow2(k as nat))
    } else if k < -34 {
        0
    } else {
        m / pow2((-k) as nat) as int
    }
}

/// Euclidean split of z by 2^32: quotient and remainder in [0, 2^32).
fn split_one(z: i64) -> (kf: (i64, i64))
    ensures
        kf.0 as int == z as int / 0x1_0000_0000,
        kf.1 as int == z as int - (kf.0 as int) * 0x1_0000_0000,
        0 <= kf.1 < 0x1_0000_0000,
        -0x8000_0000 <= kf.0 < 0x8000_0000,
{
    if z >= 0 {
        let q: i64 = ((z as u64) / 0x1_0000_0000u64) as i64;
        let r: i64 = ((z as u64) % 0x1_0000_0000u64) as i64;
        proof {
            lemma_fundamental_div_mod(z as int, 0x1_0000_0000);
        }
        (q, r)
    } else {
        let mz: u64 = if z == i64::MIN {
            0x8000_0000_0000_0000u64
        } else {
            (-z) as u64
        };
        let qm: u64 = mz / 0x1_0000_0000u64;
        let rm: u64 = mz % 0x1_0000_0000u64;
        let (q, r): (i64, i64) = if rm == 0 {
            (-(qm as i64), 0)
        } else {
            (-(qm as i64) - 1, 0x1_0000_0000i64 - (rm as i64))
        };
        proof {
            lemma_fundamental_div_mod(mz as int, 0x1_0000_0000);
            assert(z as int == (q as int) * 0x1_0000_0000 + r) by {
                assert(mz as int == (qm as int) * 0x1_0000_0000 + rm) by {
                    assert(mz as int == 0x1_0000_0000 * (qm as int) + rm);
                    assert(0x1_0000_0000 * (qm as int) == (qm as int) * 0x1_0000_0000)
                        by (nonlinear_arith);
                }
                assert((-(qm as int)) * 0x1_0000_0000 == -((qm as int) * 0x1_0000_0000))
                    by (nonlinear_arith);
                assert((-(qm as int) - 1) * 0x1_0000_0000 == -((qm as int) * 0x1_0000_0000)
                    - 0x1_0000_0000) by (nonlinear_arith);
            }
            lemma_fundamental_div_mod_converse(z as int, 0x1_0000_0000, q as int, r as int);
        }
        (q, r)
    }
}

/// 2^z saturated, exact per `spec_exp2`.
pub fn exp2fx(z: i64) -> (r: i64)
    ensures
        r as int == spec_exp2(z as int),
        r >= 0,
{
    let (k, f) = split_one(z);
    let m = exp2_frac(f);
    if k >= 63 {
        i64::MAX
    } else if k >= 0 {
        let p = pow2_u64(k as u64);
        proof {
            lemma2_to64();
            lemma2_to64_rest();
            lemma_pow2_strictly_increases(k as nat, 63);
            assert((m as int) * (p as int) <= 0x2_0000_0000 * 0x8000_0000_0000_0000)
                by (nonlinear_arith)
                requires
                    0 <= m <= 0x2_0000_0000,
                    0 <= p <= 0x8000_0000_0000_0000,
            ;
        }
        let prod: u128 = (m as u128) * (p as u128);
        if prod > i64::MAX as u128 {
            i64::MAX
        } else {
            prod as i64
        }
    } else if k < -34 {
        proof {
            lemma2_to64();
            lemma2_to64_rest();
            assert(pow2(35) <= pow2((-(k as int)) as nat)) by {
                if -(k as int) > 35 {
                    lemma_pow2_strictly_increases(35, (-(k as int)) as nat);
                }
            }
            lemma_basic_div(m as int, pow2((-(k as int)) as nat) as int);
        }
        0
    } else {
        let j: u64 = (-k) as u64;
        let p = pow2_u64(j);
        proof {
            vstd::arithmetic::power2::lemma_pow2_pos(j as nat);
        }
        let d: i64 = ((m as u64) / p) as i64;
        d
    }
}

/// e^(-x) for x >= 0: 2^(-x*log2(e)), saturated.
pub open spec fn spec_exp_neg(x: int) -> int
    recommends
        x >= 0,
{
    spec_exp2(-spec_fx_mul(x, FX_LOG2E as int))
}

/// e^(-x) for x >= 0, exact per `spec_exp_neg`; result is in [0, 1].
pub fn exp_neg(x: i64) -> (r: i64)
    requires
        x >= 0,
    ensures
        r as int == spec_exp_neg(x as int),
        0 <= r,
{
    let y = fx_mul(x, FX_LOG2E);
    exp2fx(-y)
}

/// Cosine on [0, pi/2), by the truncated cosine series.
pub open spec fn spec_cos_quarter(x: int) -> int
    recommends
        0 <= x < FX_HALF_PI,
{
    let s = spec_fx_mul(x, x);
    let h6 = spec_sat_sub(spec_fx_mul(s, COS_8 as int), COS_6 as int);
    let h4 = spec_sat_add(spec_fx_mul(s, h6), COS_4 as int);
    let h2 = spec_sat_sub(spec_fx_mul(s, h4), COS_2 as int);
    let h0 = spec_sat_add(spec_fx_mul(s, h2), 0x1_0000_0000);
    if h0 > 0x1_0000_0000 {
        0x1_0000_0000
    } else if h0 < -0x1_0000_0000 {
        -0x1_0000_0000
    } else {
        h0
    }
}

/// Sine on [0, pi/2), by the truncated sine series.
pub open spec fn spec_sin_quarter(x: int) -> int
    recommends
        0 <= x < FX_HALF_PI,
{
    let s = spec_fx_mul(x, x);
    let h7 = spec_sat_sub(spec_fx_mul(s, SIN_9 as int), SIN_7 as int);
    let h5 = spec_sat_add(spec_fx_mul(s, h7), SIN_5 as int);
    let h3 = spec_sat_sub(spec_fx_mul(s, h5), SIN_3 as int);
    let h1 = spec_sat_add(spec_fx_mul(s, h3), 0x1_0000_0000);
    let v = spec_fx_mul(x, h1);
    if v > 0x1_0000_0000 {
        0x1_0000_0000
    } else if v < -0x1_0000_0000 {
        -0x1_0000_0000
    } else {
        v
    }
}

fn cos_quarter(x: i64) -> (r: i64)
    requires
        0 <= x < FX_HALF_PI,
    ensures
        r as int == spec_cos_quarter(x as int),
        -FX_ONE <= r <= FX_ONE,
{
    let s = fx_mul(x, x);
    let h6 = sat_sub(fx_mul(s, COS_8), COS_6);
    let h4 = sat_add(fx_mul(s, h6), COS_4);
    let h2 = sat_sub(fx_mul(s, h4), COS_2);
    let h0 = sat_add(fx_mul(s, h2), FX_ONE);
    if h0 > FX_ONE {
        FX_ONE
    } else if h0 < -FX_ONE {
        -FX_ONE
    } else {
        h0
    }
}

fn sin_quarter(x: i64) -> (r: i64)
    requires
        0 <= x < FX_HALF_PI,
    ensures
        r as int == spec_sin_quarter(x as int),
        -FX_ONE <= r <= FX_ONE,
{
    let s = fx_mul(x, x);
    let h7 = sat_sub(fx_mul(s, SIN_9), SIN_7);
    let h5 = sat_add(fx_mul(s, h7), SIN_5);
    let h3 = sat_sub(fx_mul(s, h5), SIN_3);
    let h1 = sat_add(fx_mul(s, h3), FX_ONE);
    let v = fx_mul(x, h1);
    if v > FX_ONE {
        FX_ONE
    } else if v < -FX_ONE {
        -FX_ONE
    } else {
        v
    }
}

/// Cosine of a nonnegative Q32.32 angle: reduction modulo 2*pi, then
/// quadrant dispatch onto the quarter-wave kernels.
pub open spec fn spec_cos(w: int) -> int
    recommends
        w >= 0,
{
    let wr = w % (4 * 6746518852int);
    let q = wr / 6746518852int;
    let x = wr % 6746518852int;
    if q == 0 {
        spec_cos_quarter(x)
    } else if q == 1 {
        -spec_sin_quarter(x)
    } else if q == 2 {
        -spec_cos_quarter(x)
    } else {
        spec_sin_quarter(x)
    }
}

/// Sine of a nonnegative Q32.32 angle, by the same reduction.
pub open spec fn spec_sin(w: int) -> int
    recommends
        w >= 0,
{
    let wr = w % (4 * 6746518852int);
    let q = wr / 6746518852int;
    let x = wr % 6746518852int;
    if q == 0 {
        spec_sin_quarter(x)
    } else if q == 1 {
        spec_cos_quarter(x)
    } else if q == 2 {
        -spec_sin_quarter(x)
    } else {
        -spec_cos_quarter(x)
    }
}

/// Quadrant reduction: for w >= 0 returns (q, x) with q in 0..4 and
/// x in [0, pi/2) matching the spec-level reduction.
fn reduce_angle(w: i64) -> (qx: (i64, i64))
    requires
        w >= 0,
    ensures
        qx.0 as int == (w as int % (4 * 6746518852int)) / 6746518852int,
        qx.1 as int == (w as int % (4 * 6746518852int)) % 6746518852int,
        0 <= qx.0 < 4,
        0 <= qx.1 < FX_HALF_PI,
{
    let wu: u64 = w as u64;
    let wr: u64 = wu % (4 * 6746518852u64);
    let q: u64 = wr / 6746518852u64;
    let x: u64 = wr % 6746518852u64;
    proof {
        lemma_fundamental_div_mod(wr as int, 6746518852);
    }
    (q as i64, x as i64)
}

/// Cosine of a nonnegative angle, exact per `spec_cos`.
pub fn cosfx(w: i64) -> (r: i64)
    requires
        w >= 0,
    ensures
        r as int == spec_cos(w as int),
        -FX_ONE <= r <= FX_ONE,
{
    let (q, x) = reduce_angle(w);
    if q == 0 {
        cos_quarter(x)
    } else if q == 1 {
        -sin_quarter(x)
    } else if q == 2 {
        -cos_quarter(x)
    } else {
        sin_quarter(x)
    }
}

/// Sine of a nonnegative angle, exact per `spec_sin`.
pub fn sinfx(w: i64) -> (r: i64)
    requires
        w >= 0,
    ensures
        r as int == spec_sin(w as int),
        -FX_ONE <= r <= FX_ONE,
{
    let (q, x) = reduce_angle(w);
    if q == 0 {
        sin_quarter(x)
    } else if q == 1 {
        cos_quarter(x)
    } else if q == 2 {
        -sin_quarter(x)
    } else {
        -cos_quarter(x)
    }
}

/// u^e for u >= 1: 2^(e * log2(u)), saturated.
pub open spec fn spec_pow(u: int, e: int) -> int
    recommends
        u >= 1,
{
    spec_exp2(spec_fx_mul(e, spec_log2(u)))
}

/// u^e for u >= 1, exact per `spec_pow`.
pub fn powfx(u: i64, e: i64) -> (r: i64)
    requires
        u >= 1,
    ensures
        r as int == spec_pow(u as int, e as int),
        r >= 0,
{
    exp2fx(fx_mul(e, log2fx(u)))
}

} // verus!
