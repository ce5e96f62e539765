//! Frequency scale conversions and band generation.
//!
//! Conversions between Hz and the perceptual scales — Bark (Traunmüller),
//! ERB rate (Glasberg & Moore) and Mel (O'Shaughnessy) — together with the
//! auditory bandwidth formulas, and a band generator that partitions a
//! frequency range into slices of equal width on a chosen scale.
//!
//! All frequencies are Q32.32 fixed point. The band generator guarantees
//! its ordering postconditions outright: band edges never decrease, each
//! center lies inside its band, and whenever the computation stays below
//! the saturation bound the edges and centers are strictly ascending.

use vstd::prelude::*;

verus! {

use crate::fixed::FX_ONE;
use crate::fixed::sat64;
use crate::fixed::tdiv;
use crate::fixed::spec_fx_mul;
use crate::fixed::spec_fx_div;
use crate::fixed::spec_sat_add;
use crate::fixed::spec_sat_sub;
use crate::fixed::fx_mul;
use crate::fixed::fx_div;
use crate::fixed::sat_add;
use crate::fixed::sat_sub;
use crate::fixed::sat_i128;
use crate::fixed::lemma_fx_mul_nonneg;
use crate::fixed::lemma_fx_div_nonneg;
use crate::math::spec_log2;
use crate::math::spec_exp2;
use crate::math::spec_pow;
use crate::math::log2fx;
use crate::math::exp2fx;
use crate::math::powfx;
use crate::math::FX_LOG2_10;
use crate::math::FX_LOG10_2;

/// 26.81, the Bark numerator coefficient, Q32.32.
pub const FX_BARK_A: i64 = 115148073206;

/// 0.53, the Bark offset, Q32.32.
pub const FX_BARK_C: i64 = 2276332667;

/// 26.28 = 26.81 - 0.53, the Bark asymptote, Q32.32.
pub const FX_BARK_TOP: i64 = FX_BARK_A - FX_BARK_C;

/// 1960 Hz, the Bark corner frequency, Q32.32.
pub const FX_1960: i64 = 8418135900160;

/// 0.00437 = 4.37 / 1000, the ERB rate slope, Q32.32.
pub const FX_ERB_SLOPE: i64 = 18769007;

/// 21.4, the ERB rate gain, Q32.32.
pub const FX_21_4: i64 = 91912300134;

/// 24.7, the ERB bandwidth gain, Q32.32.
pub const FX_24_7: i64 = 106085692211;

/// 1000 / 4.37, the inverse ERB rate gain, Q32.32.
pub const FX_ERB_INV: i64 = 982830044851;

/// 2595, the Mel gain, Q32.32.
pub const FX_2595: i64 = 11145440133120;

/// 700 Hz, the Mel corner frequency, Q32.32.
pub const FX_700: i64 = 3006477107200;

/// 25, the critical bandwidth offset, Q32.32.
pub const FX_25: i64 = 107374182400;

/// 75, the critical bandwidth gain, Q32.32.
pub const FX_75: i64 = 322122547200;

/// 1.4, the critical bandwidth curvature, Q32.32.
pub const FX_1_4: i64 = 6012954214;

/// 0.001, one over 1000, Q32.32.
pub const FX_0_001: i64 = 4294967;

/// 0.69, the critical bandwidth exponent, Q32.32.
pub const FX_0_69: i64 = 2963527434;

/// Frequency scale types for band spacing.
#[derive(Debug, Clone, Copy, PartialEq, Eq, Structural, Default)]
pub enum Scale {
    /// Linear frequency (Hz).
    Linear,
    /// Logarithmic (octaves).
    Log,
    /// Critical bands.
    Bark,
    /// Equivalent rectangular bandwidth.
    #[default]
    ERB,
    /// Pitch perception.
    Mel,
}

/// Information about one frequency band, all fields Q32.32 Hz.
#[derive(Debug, Clone, Copy, PartialEq, Eq, Structural)]
pub struct BandInfo {
    /// Center frequency.
    pub center_hz: i64,
    /// Bandwidth, always `high_hz - low_hz` (saturated).
    pub bandwidth_hz: i64,
    /// Lower edge frequency.
    pub low_hz: i64,
    /// Upper edge frequency.
    pub high_hz: i64,
}

/// Bark value of a positive frequency (Traunmüller):
/// 26.81 * hz / (1960 + hz) - 0.53.
pub open spec fn spec_hz_to_bark(hz: int) -> int
    recommends
        hz >= 1,
{
    spec_sat_sub(spec_fx_div(spec_fx_mul(FX_BARK_A as int, hz), spec_sat_add(FX_1960 as int, hz)),
        FX_BARK_C as int)
}

/// Convert frequency in Hz to the Bark scale, exact per `spec_hz_to_bark`.
pub fn hz_to_bark(hz: i64) -> (r: i64)
    requires
        hz >= 1,
    ensures
        r as int == spec_hz_to_bark(hz as int),
{
    sat_sub(fx_div(fx_mul(FX_BARK_A, hz), sat_add(FX_1960, hz)), FX_BARK_C)
}

/// Frequency of a Bark value, the inverse Traunmüller formula
/// 1960 * (bark + 0.53) / (26.28 - bark); at or above the 26.28 asymptote
/// the result saturates.
pub open spec fn spec_bark_to_hz(bark: int) -> int {
    if bark >= FX_BARK_TOP {
        i64::MAX as int
    } else {
        spec_fx_div(spec_fx_mul(FX_1960 as int, spec_sat_add(bark, FX_BARK_C as int)),
            spec_sat_sub(FX_BARK_TOP as int, bark))
    }
}

/// Convert a Bark value to frequency in Hz, exact per `spec_bark_to_hz`.
pub fn bark_to_hz(bark: i64) -> (r: i64)
    ensures
        r as int == spec_bark_to_hz(bark as int),
{
    if bark >= FX_BARK_TOP {
        i64::MAX
    } else {
        fx_div(fx_mul(FX_1960, sat_add(bark, FX_BARK_C)), sat_sub(FX_BARK_TOP, bark))
    }
}

/// Critical bandwidth at a positive frequency (Zwicker & Terhardt):
/// 25 + 75 * (1 + 1.4 * (hz/1000)^2)^0.69.
pub open spec fn spec_critical_bandwidth(hz: int) -> int
    recommends
        hz >= 1,
{
    let kilo = spec_fx_mul(FX_0_001 as int, hz);
    let base = spec_sat_add(spec_fx_mul(FX_1_4 as int, spec_fx_mul(kilo, kilo)), FX_ONE as int);
    spec_sat_add(FX_25 as int, spec_fx_mul(FX_75 as int, spec_pow(base, FX_0_69 as int)))
}

/// Critical bandwidth at a frequency, exact per `spec_critical_bandwidth`.
pub fn critical_bandwidth(hz: i64) -> (r: i64)
    requires
        hz >= 1,
    ensures
        r as int == spec_critical_bandwidth(hz as int),
{
    let kilo = fx_mul(FX_0_001, hz);
    proof {
        lemma_fx_mul_nonneg(kilo as int, kilo as int);
        lemma_fx_mul_nonneg(FX_1_4 as int, spec_fx_mul(kilo as int, kilo as int));
    }
    let base = sat_add(fx_mul(FX_1_4, fx_mul(kilo, kilo)), FX_ONE);
    sat_add(FX_25, fx_mul(FX_75, powfx(base, FX_0_69)))
}

/// ERB bandwidth at a positive frequency (Glasberg & Moore):
/// 24.7 * (4.37 * hz / 1000 + 1).
pub open spec fn spec_erb_bandwidth(hz: int) -> int
    recommends
        hz >= 1,
{
    spec_fx_mul(FX_24_7 as int, spec_sat_add(spec_fx_mul(FX_ERB_SLOPE as int, hz), FX_ONE as int))
}

/// ERB bandwidth at a frequency, exact per `spec_erb_bandwidth`.
pub fn erb_bandwidth(hz: i64) -> (r: i64)
    requires
        hz >= 1,
    ensures
        r as int == spec_erb_bandwidth(hz as int),
{
    fx_mul(FX_24_7, sat_add(fx_mul(FX_ERB_SLOPE, hz), FX_ONE))
}

/// ERB rate of a positive frequency: 21.4 * log10(4.37 * hz / 1000 + 1).
pub open spec fn spec_hz_to_erb(hz: int) -> int
    recommends
        hz >= 1,
{
    let arg = spec_sat_add(spec_fx_mul(FX_ERB_SLOPE as int, hz), FX_ONE as int);
    spec_fx_mul(FX_21_4 as int, spec_fx_mul(FX_LOG10_2 as int, spec_log2(arg)))
}

/// Convert frequency in Hz to the ERB rate scale, exact per `spec_hz_to_erb`.
pub fn hz_to_erb(hz: i64) -> (r: i64)
    requires
        hz >= 1,
    ensures
        r as int == spec_hz_to_erb(hz as int),
{
    proof {
        lemma_fx_mul_nonneg(FX_ERB_SLOPE as int, hz as int);
    }
    let arg = sat_add(fx_mul(FX_ERB_SLOPE, hz), FX_ONE);
    fx_mul(FX_21_4, fx_mul(FX_LOG10_2, log2fx(arg)))
}

/// Frequency of an ERB rate value: (10^(erb / 21.4) - 1) * 1000 / 4.37.
pub open spec fn spec_erb_to_hz(erb: int) -> int {
    let p = spec_exp2(spec_fx_mul(spec_fx_div(erb, FX_21_4 as int), FX_LOG2_10 as int));
    spec_fx_mul(spec_sat_sub(p, FX_ONE as int), FX_ERB_INV as int)
}

/// Convert an ERB rate value to frequency in Hz, exact per `spec_erb_to_hz`.
pub fn erb_to_hz(erb: i64) -> (r: i64)
    ensures
        r as int == spec_erb_to_hz(erb as int),
{
    let p = exp2fx(fx_mul(fx_div(erb, FX_21_4), FX_LOG2_10));
    fx_mul(sat_sub(p, FX_ONE), FX_ERB_INV)
}

/// Mel value of a positive frequency: 2595 * log10(1 + hz / 700).
pub open spec fn spec_hz_to_mel(hz: int) -> int
    recommends
        hz >= 1,
{
    let arg = spec_sat_add(spec_fx_div(hz, FX_700 as int), FX_ONE as int);
    spec_fx_mul(FX_2595 as int, spec_fx_mul(FX_LOG10_2 as int, spec_log2(arg)))
}

/// Convert frequency in Hz to the Mel scale, exact per `spec_hz_to_mel`.
pub fn hz_to_mel(hz: i64) -> (r: i64)
    requires
        hz >= 1,
    ensures
        r as int == spec_hz_to_mel(hz as int),
{
    proof {
        lemma_fx_div_nonneg(hz as int, FX_700 as int);
    }
    let arg = sat_add(fx_div(hz, FX_700), FX_ONE);
    fx_mul(FX_2595, fx_mul(FX_LOG10_2, log2fx(arg)))
}

/// Frequency of a Mel value: 700 * (10^(mel / 2595) - 1).
pub open spec fn spec_mel_to_hz(mel: int) -> int {
    let p = spec_exp2(spec_fx_mul(spec_fx_div(mel, FX_2595 as int), FX_LOG2_10 as int));
    spec_fx_mul(FX_700 as int, spec_sat_sub(p, FX_ONE as int))
}

/// Convert a Mel value to frequency in Hz, exact per `spec_mel_to_hz`.
pub fn mel_to_hz(mel: i64) -> (r: i64)
    ensures
        r as int == spec_mel_to_hz(mel as int),
{
    let p = exp2fx(fx_mul(fx_div(mel, FX_2595), FX_LOG2_10));
    fx_mul(FX_700, sat_sub(p, FX_ONE))
}

/// A positive frequency mapped onto the coordinate axis of a scale.
#[verifier::opaque]
pub open spec fn spec_scale_fwd(scale: Scale, hz: int) -> int
    recommends
        hz >= 1,
{
    match scale {
        Scale::Linear => hz,
        Scale::Log => spec_log2(hz),
        Scale::Bark => spec_hz_to_bark(hz),
        Scale::ERB => spec_hz_to_erb(hz),
        Scale::Mel => spec_hz_to_mel(hz),
    }
}

/// A scale coordinate mapped back to a frequency.
#[verifier::opaque]
pub open spec fn spec_scale_inv(scale: Scale, c: int) -> int {
    match scale {
        Scale::Linear => c,
        Scale::Log => spec_exp2(c),
        Scale::Bark => spec_bark_to_hz(c),
        Scale::ERB => spec_erb_to_hz(c),
        Scale::Mel => spec_mel_to_hz(c),
    }
}

fn scale_fwd(scale: Scale, hz: i64) -> (r: i64)
    requires
        hz >= 1,
    ensures
        r as int == spec_scale_fwd(scale, hz as int),
{
    proof {
        reveal(spec_scale_fwd);
    }
    match scale {
        Scale::Linear => hz,
        Scale::Log => log2fx(hz),
        Scale::Bark => hz_to_bark(hz),
        Scale::ERB => hz_to_erb(hz),
        Scale::Mel => hz_to_mel(hz),
    }
}

fn scale_inv(scale: Scale, c: i64) -> (r: i64)
    ensures
        r as int == spec_scale_inv(scale, c as int),
{
    proof {
        reveal(spec_scale_inv);
    }
    match scale {
        Scale::Linear => c,
        Scale::Log => exp2fx(c),
        Scale::Bark => bark_to_hz(c),
        Scale::ERB => erb_to_hz(c),
        Scale::Mel => mel_to_hz(c),
    }
}

/// The forward map keeps `i64`-ranged inputs in the `i64` range.
proof fn lemma_scale_fwd_in_range(scale: Scale, hz: int)
    requires
        i64::MIN <= hz <= i64::MAX,
    ensures
        i64::MIN <= spec_scale_fwd(scale, hz) <= i64::MAX,
{
    reveal(spec_scale_fwd);
}

/// Every scale coordinate maps back to a value in the `i64` range.
proof fn lemma_scale_inv_in_range(scale: Scale, c: int)
    requires
        i64::MIN <= c <= i64::MAX,
    ensures
        i64::MIN <= spec_scale_inv(scale, c) <= i64::MAX,
{
    reveal(spec_scale_inv);
    match scale {
        Scale::Linear => {},
        Scale::Log => {
            lemma_exp2_in_range(c);
        },
        Scale::Bark => {},
        Scale::ERB => {},
        Scale::Mel => {},
    }
}

/// `spec_exp2` stays within the `i64` range.
proof fn lemma_exp2_in_range(z: int)
    ensures
        0 <= spec_exp2(z) <= i64::MAX,
{
    let k = z / 0x1_0000_0000;
    let f = z - k * 0x1_0000_0000;
    let m = crate::math::spec_exp2_frac(f);
    if k >= 63 {
    } else if k >= 0 {
    } else if k < -34 {
    } else {
        vstd::arithmetic::power2::lemma_pow2_pos((-k) as nat);
        vstd::arithmetic::div_mod::lemma_div_pos_is_pos(m,
            vstd::arithmetic::power2::pow2((-k) as nat) as int);
        vstd::arithmetic::div_mod::lemma_div_nonincreasing(m,
            vstd::arithmetic::power2::pow2((-k) as nat) as int);
    }
}

/// The coordinate step of a partition: (fwd(max) - fwd(min)) / n,
/// truncated toward zero.
pub open spec fn spec_band_step(scale: Scale, n: int, min_hz: int, max_hz: int) -> int
    recommends
        n >= 1,
{
    tdiv(spec_scale_fwd(scale, max_hz) - spec_scale_fwd(scale, min_hz), n)
}

/// The i-th partition coordinate: fwd(min) + i * step, with the last
/// coordinate pinned to fwd(max) exactly.
pub open spec fn spec_band_coord(scale: Scale, n: int, min_hz: int, max_hz: int, i: int) -> int
    recommends
        n >= 1,
        0 <= i <= n,
{
    if i >= n {
        spec_scale_fwd(scale, max_hz)
    } else {
        sat64(spec_scale_fwd(scale, min_hz) + i * spec_band_step(scale, n, min_hz, max_hz))
    }
}

/// The i-th band edge in Hz: the coordinate mapped back to frequency,
/// then lifted just above the previous edge where rounding would have
/// made the sequence fall or stall.
pub open spec fn spec_band_edge(scale: Scale, n: int, min_hz: int, max_hz: int, i: int) -> int
    recommends
        n >= 1,
        0 <= i <= n,
    decreases i,
{
    let raw = spec_scale_inv(scale, spec_band_coord(scale, n, min_hz, max_hz, i));
    if i <= 0 {
        raw
    } else {
        let prev = spec_band_edge(scale, n, min_hz, max_hz, i - 1);
        let lifted = spec_sat_add(prev, 1);
        if raw < lifted {
            lifted
        } else {
            raw
        }
    }
}

/// Truncated average of two coordinates.
pub open spec fn spec_tavg(a: int, b: int) -> int {
    tdiv(a + b, 2)
}

/// The i-th band center: the inverse image of the midpoint coordinate,
/// clamped into the band. The coordinate midpoint realizes each scale's
/// center rule — the arithmetic mean of the edges for Linear, their
/// geometric mean for Log, and the perceptual midpoint for Bark, ERB
/// and Mel.
pub open spec fn spec_band_center(scale: Scale, n: int, min_hz: int, max_hz: int, i: int) -> int
    recommends
        n >= 1,
        0 <= i < n,
{
    let lo = spec_band_edge(scale, n, min_hz, max_hz, i);
    let hi = spec_band_edge(scale, n, min_hz, max_hz, i + 1);
    let mid = spec_tavg(spec_band_coord(scale, n, min_hz, max_hz, i),
        spec_band_coord(scale, n, min_hz, max_hz, i + 1));
    let raw = spec_scale_inv(scale, mid);
    let cap = if hi - 1 < lo {
        lo
    } else {
        hi - 1
    };
    if raw < lo {
        lo
    } else if raw > cap {
        cap
    } else {
        raw
    }
}

/// The i-th generated band.
pub open spec fn spec_band(scale: Scale, n: int, min_hz: int, max_hz: int, i: int) -> BandInfo
    recommends
        n >= 1,
        0 <= i < n,
{
    let lo = spec_band_edge(scale, n, min_hz, max_hz, i);
    let hi = spec_band_edge(scale, n, min_hz, max_hz, i + 1);
    BandInfo {
        center_hz: spec_band_center(scale, n, min_hz, max_hz, i) as i64,
        bandwidth_hz: spec_sat_sub(hi, lo) as i64,
        low_hz: lo as i64,
        high_hz: hi as i64,
    }
}

/// Edges stay in the `i64` range.
proof fn lemma_band_edge_in_range(scale: Scale, n: int, min_hz: int, max_hz: int, i: int)
    requires
        n >= 1,
        i64::MIN <= min_hz <= i64::MAX,
        i64::MIN <= max_hz <= i64::MAX,
        0 <= i <= n,
    ensures
        i64::MIN <= spec_band_edge(scale, n, min_hz, max_hz, i) <= i64::MAX,
    decreases i,
{
    lemma_scale_fwd_in_range(scale, max_hz);
    lemma_scale_fwd_in_range(scale, min_hz);
    lemma_scale_inv_in_range(scale, spec_band_coord(scale, n, min_hz, max_hz, i));
    if i > 0 {
        lemma_band_edge_in_range(scale, n, min_hz, max_hz, i - 1);
    }
}

/// One step of the edge sequence: it never decreases, it stalls only at
/// the saturation bound, and below the bound it strictly increases.
proof fn lemma_band_edge_step(scale: Scale, n: int, min_hz: int, max_hz: int, i: int)
    requires
        n >= 1,
        i64::MIN <= min_hz <= i64::MAX,
        i64::MIN <= max_hz <= i64::MAX,
        1 <= i <= n,
    ensures
        spec_band_edge(scale, n, min_hz, max_hz, i - 1) <= spec_band_edge(scale, n, min_hz,
            max_hz, i),
        spec_band_edge(scale, n, min_hz, max_hz, i - 1) < i64::MAX ==> spec_band_edge(scale, n,
            min_hz, max_hz, i - 1) < spec_band_edge(scale, n, min_hz, max_hz, i),
        spec_band_edge(scale, n, min_hz, max_hz, i) < i64::MAX ==> spec_band_edge(scale, n,
            min_hz, max_hz, i - 1) < i64::MAX,
{
    lemma_band_edge_in_range(scale, n, min_hz, max_hz, i - 1);
    lemma_scale_fwd_in_range(scale, max_hz);
    lemma_scale_fwd_in_range(scale, min_hz);
    lemma_scale_inv_in_range(scale, spec_band_coord(scale, n, min_hz, max_hz, i));
}

/// Below the saturation bound, all edges up to j are strictly ascending.
proof fn lemma_band_edges_ascend(scale: Scale, n: int, min_hz: int, max_hz: int, j: int)
    requires
        n >= 1,
        i64::MIN <= min_hz <= i64::MAX,
        i64::MIN <= max_hz <= i64::MAX,
        0 <= j <= n,
        spec_band_edge(scale, n, min_hz, max_hz, j) < i64::MAX,
    ensures
        forall|i: int|
            0 <= i < j ==> #[trigger] spec_band_edge(scale, n, min_hz, max_hz, i)
                < spec_band_edge(scale, n, min_hz, max_hz, i + 1),
        forall|i: int|
            0 <= i <= j ==> #[trigger] spec_band_edge(scale, n, min_hz, max_hz, i) < i64::MAX,
    decreases j,
{
    if j > 0 {
        lemma_band_edge_step(scale, n, min_hz, max_hz, j);
        lemma_band_edges_ascend(scale, n, min_hz, max_hz, j - 1);
    }
}

/// Generate `num_bands` frequency bands spaced evenly on the given scale
/// between `min_hz` and `max_hz` (both Q32.32, `0 < min_hz < max_hz`).
///
/// The result has exactly `num_bands` entries, each pinned to
/// `spec_band`; adjacent bands share an edge, each band's center lies
/// between its edges, bandwidth is the edge difference, and — whenever
/// the last edge stays below the saturation bound, as it does for every
/// realistic audio range — edges and centers are strictly ascending.
/// The partition coordinates, pinned to `spec_band_coord`.
fn band_coords(scale: Scale, num_bands: usize, min_hz: i64, max_hz: i64) -> (coords: Vec<i64>)
    requires
        1 <= num_bands <= 0x7FFF_FFFF,
        1 <= min_hz < max_hz,
    ensures
        coords@.len() == num_bands + 1,
        forall|j: int|
            0 <= j <= num_bands ==> #[trigger] coords@[j] as int == spec_band_coord(scale,
                num_bands as int, min_hz as int, max_hz as int, j),
{
    let ghost gn = num_bands as int;
    let ghost gmin = min_hz as int;
    let ghost gmax = max_hz as int;
    let cmin = scale_fwd(scale, min_hz);
    let cmax = scale_fwd(scale, max_hz);
    let n64: i64 = num_bands as i64;

    // Coordinate step, truncated toward zero, as an i128.
    let diff: i128 = cmax as i128 - cmin as i128;
    let sneg = diff < 0;
    let smag: u128 = if sneg {
        (-diff) as u128
    } else {
        diff as u128
    };
    let qmag: u128 = smag / (n64 as u128);
    let step: i128 = if sneg {
        -(qmag as i128)
    } else {
        qmag as i128
    };
    proof {
        assert(step as int == spec_band_step(scale, gn, gmin, gmax)) by {
            assert(vstd::math::abs(diff as int) == smag);
            assert(vstd::math::abs(gn) == n64 as int);
        }
    }

    let mut coords: Vec<i64> = Vec::new();
    let mut i: usize = 0;
    while i <= num_bands
        invariant
            num_bands <= 0x7FFF_FFFF,
            coords@.len() == i,
            i <= num_bands + 1,
            n64 == num_bands as i64,
            cmin as int == spec_scale_fwd(scale, gmin),
            cmax as int == spec_scale_fwd(scale, gmax),
            step as int == spec_band_step(scale, gn, gmin, gmax),
            -0x1_0000_0000_0000_0000 <= step <= 0x1_0000_0000_0000_0000,
            gn == num_bands as int,
            gmin == min_hz as int,
            gmax == max_hz as int,
            forall|j: int|
                0 <= j < i ==> #[trigger] coords@[j] as int == spec_band_coord(scale, gn, gmin,
                    gmax, j),
        decreases num_bands + 1 - i,
    {
        let c: i64 = if i == num_bands {
            cmax
        } else {
            proof {
                assert((i as int) * (step as int) <= 0x8000_0000 * 0x1_0000_0000_0000_0000
                    && (i as int) * (step as int) >= -(0x8000_0000 * 0x1_0000_0000_0000_0000))
                    by (nonlinear_arith)
                    requires
                        0 <= i as int <= 0x8000_0000,
                        -0x1_0000_0000_0000_0000 <= step as int <= 0x1_0000_0000_0000_0000,
                ;
            }
            let prod: i128 = (i as i128) * step;
            sat_i128(cmin as i128 + prod)
        };
        coords.push(c);
        i = i + 1;
    }
    coords
}

/// The repaired band edges in Hz, pinned to `spec_band_edge`.
fn band_edges(
    scale: Scale,
    num_bands: usize,
    min_hz: i64,
    max_hz: i64,
    coords: &Vec<i64>,
) -> (edges: Vec<i64>)
    requires
        1 <= num_bands <= 0x7FFF_FFFF,
        coords@.len() == num_bands + 1,
        forall|j: int|
            0 <= j <= num_bands ==> #[trigger] coords@[j] as int == spec_band_coord(scale,
                num_bands as int, min_hz as int, max_hz as int, j),
    ensures
        edges@.len() == num_bands + 1,
        forall|j: int|
            0 <= j <= num_bands ==> #[trigger] edges@[j] as int == spec_band_edge(scale,
                num_bands as int, min_hz as int, max_hz as int, j),
{
    let ghost gn = num_bands as int;
    let ghost gmin = min_hz as int;
    let ghost gmax = max_hz as int;
    let mut edges: Vec<i64> = Vec::new();
    let mut i: usize = 0;
    while i <= num_bands
        invariant
            num_bands <= 0x7FFF_FFFF,
            coords@.len() == num_bands + 1,
            edges@.len() == i,
            i <= num_bands + 1,
            gn == num_bands as int,
            gmin == min_hz as int,
            gmax == max_hz as int,
            forall|j: int|
                0 <= j <= num_bands ==> #[trigger] coords@[j] as int == spec_band_coord(scale, gn,
                    gmin, gmax, j),
            forall|j: int|
                0 <= j < i ==> #[trigger] edges@[j] as int == spec_band_edge(scale, gn, gmin,
                    gmax, j),
        decreases num_bands + 1 - i,
    {
        let raw = scale_inv(scale, coords[i]);
        let e: i64 = if i == 0 {
            raw
        } else {
            let p = edges[i - 1];
            let lifted = sat_add(p, 1);
            if raw < lifted {
                lifted
            } else {
                raw
            }
        };
        edges.push(e);
        i = i + 1;
    }
    edges
}

/// One assembled band, pinned to `spec_band`.
fn assemble_band(
    scale: Scale,
    num_bands: usize,
    min_hz: i64,
    max_hz: i64,
    coords: &Vec<i64>,
    edges: &Vec<i64>,
    i: usize,
) -> (band: BandInfo)
    requires
        1 <= num_bands <= 0x7FFF_FFFF,
        i < num_bands,
        coords@.len() == num_bands + 1,
        edges@.len() == num_bands + 1,
        forall|j: int|
            0 <= j <= num_bands ==> #[trigger] coords@[j] as int == spec_band_coord(scale,
                num_bands as int, min_hz as int, max_hz as int, j),
        forall|j: int|
            0 <= j <= num_bands ==> #[trigger] edges@[j] as int == spec_band_edge(scale,
                num_bands as int, min_hz as int, max_hz as int, j),
    ensures
        band == spec_band(scale, num_bands as int, min_hz as int, max_hz as int, i as int),
{
    let ghost gn = num_bands as int;
    let ghost gmin = min_hz as int;
    let ghost gmax = max_hz as int;
    let lo = edges[i];
    let hi = edges[i + 1];
    let ca = coords[i];
    let cb = coords[i + 1];
    // Truncated average of the two coordinates.
    let sum: i128 = ca as i128 + cb as i128;
    let mneg = sum < 0;
    let msum: u128 = if mneg {
        (-sum) as u128
    } else {
        sum as u128
    };
    let half: u128 = msum / 2;
    let mid: i64 = if mneg {
        if half >= 0x8000_0000_0000_0000u128 {
            i64::MIN
        } else {
            -(half as i64)
        }
    } else {
        half as i64
    };
    proof {
        assert(mid as int == spec_tavg(ca as int, cb as int)) by {
            assert(vstd::math::abs(sum as int) == msum);
        }
    }
    let raw = scale_inv(scale, mid);
    let cap: i64 = if hi > lo {
        hi - 1
    } else {
        lo
    };
    let c: i64 = if raw < lo {
        lo
    } else if raw > cap {
        cap
    } else {
        raw
    };
    BandInfo { center_hz: c, bandwidth_hz: sat_sub(hi, lo), low_hz: lo, high_hz: hi }
}

/// Generate `num_bands` frequency bands spaced evenly on the given scale
/// between `min_hz` and `max_hz` (both Q32.32, `0 < min_hz < max_hz`).
///
/// The result has exactly `num_bands` entries, each pinned to
/// `spec_band`; adjacent bands share an edge, each band's center lies
/// between its edges, bandwidth is the edge difference, and — whenever
/// the last edge stays below the saturation bound, as it does for every
/// realistic audio range — edges and centers are strictly ascending.
#[verifier::rlimit(100)]
pub fn generate_bands(scale: Scale, num_bands: usize, min_hz: i64, max_hz: i64) -> (bands: Vec<BandInfo>)
    requires
        1 <= num_bands <= 0x7FFF_FFFF,
        1 <= min_hz < max_hz,
    ensures
        bands@.len() == num_bands,
        forall|i: int|
            0 <= i < num_bands ==> bands@[i] == spec_band(scale, num_bands as int, min_hz as int,
                max_hz as int, i),
        forall|i: int|
            0 <= i < num_bands ==> (#[trigger] bands@[i]).low_hz <= bands@[i].center_hz
                <= bands@[i].high_hz,
        forall|i: int|
            0 <= i < num_bands ==> (#[trigger] bands@[i]).bandwidth_hz as int == spec_sat_sub(
                bands@[i].high_hz as int, bands@[i].low_hz as int),
        forall|i: int|
            0 <= i < num_bands - 1 ==> (#[trigger] bands@[i]).high_hz == bands@[i + 1].low_hz,
        bands@[0].low_hz as int == spec_scale_inv(scale, spec_scale_fwd(scale, min_hz as int)),
        bands@[num_bands - 1].high_hz as int >= spec_scale_inv(scale, spec_scale_fwd(scale,
            max_hz as int)),
        bands@[num_bands - 1].high_hz < i64::MAX ==> forall|i: int|
            0 <= i < num_bands ==> (#[trigger] bands@[i]).low_hz < bands@[i].high_hz,
        bands@[num_bands - 1].high_hz < i64::MAX ==> forall|i: int|
            0 <= i < num_bands - 1 ==> (#[trigger] bands@[i]).center_hz < bands@[i
                + 1].center_hz,
{
    let ghost gn = num_bands as int;
    let ghost gmin = min_hz as int;
    let ghost gmax = max_hz as int;
    let coords = band_coords(scale, num_bands, min_hz, max_hz);
    let edges = band_edges(scale, num_bands, min_hz, max_hz, &coords);
    let mut bands: Vec<BandInfo> = Vec::new();
    let mut i: usize = 0;
    while i < num_bands
        invariant
            1 <= num_bands <= 0x7FFF_FFFF,
            coords@.len() == num_bands + 1,
            edges@.len() == num_bands + 1,
            bands@.len() == i,
            i <= num_bands,
            gn == num_bands as int,
            gmin == min_hz as int,
            gmax == max_hz as int,
            forall|j: int|
                0 <= j <= num_bands ==> #[trigger] coords@[j] as int == spec_band_coord(scale, gn,
                    gmin, gmax, j),
            forall|j: int|
                0 <= j <= num_bands ==> #[trigger] edges@[j] as int == spec_band_edge(scale, gn,
                    gmin, gmax, j),
            forall|j: int|
                0 <= j < i ==> #[trigger] bands@[j] == spec_band(scale, gn, gmin, gmax, j),
        decreases num_bands - i,
    {
        let band = assemble_band(scale, num_bands, min_hz, max_hz, &coords, &edges, i);
        bands.push(band);
        i = i + 1;
    }
    proof {
        assert forall|i: int| 0 <= i < gn implies (#[trigger] bands@[i]).low_hz
            <= bands@[i].center_hz <= bands@[i].high_hz by {
            lemma_band_edge_in_range(scale, gn, gmin, gmax, i);
            lemma_band_edge_in_range(scale, gn, gmin, gmax, i + 1);
            lemma_band_edge_step(scale, gn, gmin, gmax, i + 1);
        }
        assert forall|i: int| 0 <= i < gn implies (#[trigger] bands@[i]).bandwidth_hz as int
            == spec_sat_sub(bands@[i].high_hz as int, bands@[i].low_hz as int) by {
            lemma_band_edge_in_range(scale, gn, gmin, gmax, i);
            lemma_band_edge_in_range(scale, gn, gmin, gmax, i + 1);
        }
        assert(bands@[0].low_hz as int == spec_scale_inv(scale, spec_scale_fwd(scale, gmin)))
            by {
            lemma_scale_fwd_in_range(scale, gmin);
            lemma_band_edge_in_range(scale, gn, gmin, gmax, 0);
            assert(spec_band_coord(scale, gn, gmin, gmax, 0) == sat64(spec_scale_fwd(scale, gmin)
                + 0 * spec_band_step(scale, gn, gmin, gmax)));
            assert(0 * spec_band_step(scale, gn, gmin, gmax) == 0) by (nonlinear_arith);
        }
        assert(bands@[gn - 1].high_hz as int >= spec_scale_inv(scale, spec_scale_fwd(scale,
            gmax))) by {
            lemma_scale_fwd_in_range(scale, gmax);
            lemma_band_edge_in_range(scale, gn, gmin, gmax, gn - 1);
            lemma_band_edge_in_range(scale, gn, gmin, gmax, gn);
            assert(spec_band_coord(scale, gn, gmin, gmax, gn) == spec_scale_fwd(scale, gmax));
        }
        if bands@[gn - 1].high_hz < i64::MAX {
            lemma_band_edge_in_range(scale, gn, gmin, gmax, gn);
            lemma_band_edges_ascend(scale, gn, gmin, gmax, gn);
            assert forall|i: int| 0 <= i < gn implies (#[trigger] bands@[i]).low_hz
                < bands@[i].high_hz by {
                lemma_band_edge_in_range(scale, gn, gmin, gmax, i);
                lemma_band_edge_in_range(scale, gn, gmin, gmax, i + 1);
                assert(spec_band_edge(scale, gn, gmin, gmax, i) < spec_band_edge(scale, gn, gmin,
                    gmax, i + 1));
            }
            assert forall|i: int| 0 <= i < gn - 1 implies (#[trigger] bands@[i]).center_hz
                < bands@[i + 1].center_hz by {
                lemma_band_edge_in_range(scale, gn, gmin, gmax, i);
                lemma_band_edge_in_range(scale, gn, gmin, gmax, i + 1);
                lemma_band_edge_in_range(scale, gn, gmin, gmax, i + 2);
                assert(spec_band_edge(scale, gn, gmin, gmax, i) < spec_band_edge(scale, gn, gmin,
                    gmax, i + 1));
                assert(spec_band_edge(scale, gn, gmin, gmax, i + 1) < spec_band_edge(scale, gn,
                    gmin, gmax, i + 2));
            }
        }
    }
    bands
}

} // verus!
