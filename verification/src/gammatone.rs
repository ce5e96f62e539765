//! Gammatone filterbank.
//!
//! A single auditory channel is a fourth-order all-pole gammatone
//! approximation: a cascade of four identical first-order complex
//! resonators sharing the pole `r * e^(j*omega)`. The filterbank owns one
//! filter per band, a raw magnitude buffer, and an exponentially smoothed
//! envelope buffer.
//!
//! Everything is Q32.32 fixed point; each mutation is pinned exactly to a
//! specification function, so a reset state, a freshly built state, and
//! the effect of processing any sample sequence are all fully determined
//! by the configuration and the input.

use vstd::prelude::*;

verus! {

use crate::fixed::FX_ONE;
use crate::fixed::sat64;
use crate::fixed::spec_fx_mul;
use crate::fixed::spec_fx_div;
use crate::fixed::spec_sat_add;
use crate::fixed::spec_sat_sub;
use crate::fixed::spec_isqrt;
use crate::fixed::fx_mul;
use crate::fixed::fx_div;
use crate::fixed::sat_add;
use crate::fixed::sat_sub;
use crate::fixed::isqrt128;
use crate::fixed::lemma_fx_mul_nonneg;
use crate::fixed::lemma_fx_div_nonneg;
use crate::math::FX_TWO_PI;
use crate::math::spec_exp_neg;
use crate::math::spec_cos;
use crate::math::spec_sin;
use crate::math::exp_neg;
use crate::math::cosfx;
use crate::math::sinfx;
use crate::math::log2fx;
use crate::math::spec_log2;
use crate::math::FX_LOG10_2;
use crate::scales::Scale;
use crate::scales::BandInfo;
use crate::scales::spec_band;
use crate::scales::spec_erb_bandwidth;
use crate::scales::erb_bandwidth;
use crate::scales::generate_bands;

/// 2.0 in Q32.32.
pub const FX_TWO: i64 = 0x2_0000_0000;

/// 20.0 in Q32.32, the dB gain.
pub const FX_20: i64 = 85899345920;

/// 1000.0 in Q32.32, milliseconds per second.
pub const FX_1000: i64 = 4294967296000;

/// A single gammatone filter for one frequency band.
#[derive(Debug, Clone, Copy, PartialEq, Eq, Structural)]
pub struct GammatoneFilter {
    center_hz: i64,
    sample_rate: i64,
    r: i64,
    cos_omega: i64,
    sin_omega: i64,
    gain: i64,
    s0r: i64,
    s0i: i64,
    s1r: i64,
    s1i: i64,
    s2r: i64,
    s2i: i64,
    s3r: i64,
    s3i: i64,
}

/// The filter a configuration step produces: pole radius
/// `r = e^(-2*pi*bandwidth/rate)` clamped into (0, 1), the pole angle's
/// cosine and sine at `omega = 2*pi*center/rate`, input gain
/// `(1 - r)^4 * 2`, and zeroed state.
#[verifier::opaque]
pub closed spec fn spec_filter_params(center_hz: int, bandwidth_hz: int, sample_rate: int)
    -> GammatoneFilter
    recommends
        center_hz >= 1,
        bandwidth_hz >= 1,
        sample_rate >= 1,
{
    let omega = spec_fx_div(spec_fx_mul(FX_TWO_PI as int, center_hz), sample_rate);
    let bw = spec_fx_div(spec_fx_mul(FX_TWO_PI as int, bandwidth_hz), sample_rate);
    let r0 = spec_exp_neg(bw);
    let r = if r0 < 1 {
        1
    } else if r0 > FX_ONE - 1 {
        FX_ONE - 1
    } else {
        r0
    };
    let omr = spec_sat_sub(FX_ONE as int, r);
    let g2 = spec_fx_mul(omr, omr);
    GammatoneFilter {
        center_hz: center_hz as i64,
        sample_rate: sample_rate as i64,
        r: r as i64,
        cos_omega: spec_cos(omega) as i64,
        sin_omega: spec_sin(omega) as i64,
        gain: spec_fx_mul(spec_fx_mul(g2, g2), FX_TWO as int) as i64,
        s0r: 0,
        s0i: 0,
        s1r: 0,
        s1i: 0,
        s2r: 0,
        s2i: 0,
        s3r: 0,
        s3i: 0,
    }
}

/// The filter with its state cleared and parameters kept.
pub closed spec fn spec_filter_reset(f: GammatoneFilter) -> GammatoneFilter {
    GammatoneFilter {
        center_hz: f.center_hz,
        sample_rate: f.sample_rate,
        r: f.r,
        cos_omega: f.cos_omega,
        sin_omega: f.sin_omega,
        gain: f.gain,
        s0r: 0,
        s0i: 0,
        s1r: 0,
        s1i: 0,
        s2r: 0,
        s2i: 0,
        s3r: 0,
        s3i: 0,
    }
}

/// One sample through the four-stage cascade: the gained input enters
/// stage 0, each stage adds the pole times its previous complex state,
/// and its output feeds the next stage.
#[verifier::opaque]
pub closed spec fn spec_tick(f: GammatoneFilter, x: int) -> GammatoneFilter {
    let r = f.r as int;
    let c = f.cos_omega as int;
    let s = f.sin_omega as int;
    let inr = spec_fx_mul(x, f.gain as int);
    let n0r = spec_sat_add(inr, spec_fx_mul(r, spec_sat_sub(spec_fx_mul(c, f.s0r as int),
        spec_fx_mul(s, f.s0i as int))));
    let n0i = spec_fx_mul(r, spec_sat_add(spec_fx_mul(s, f.s0r as int), spec_fx_mul(c,
        f.s0i as int)));
    let n1r = spec_sat_add(n0r, spec_fx_mul(r, spec_sat_sub(spec_fx_mul(c, f.s1r as int),
        spec_fx_mul(s, f.s1i as int))));
    let n1i = spec_sat_add(n0i, spec_fx_mul(r, spec_sat_add(spec_fx_mul(s, f.s1r as int),
        spec_fx_mul(c, f.s1i as int))));
    let n2r = spec_sat_add(n1r, spec_fx_mul(r, spec_sat_sub(spec_fx_mul(c, f.s2r as int),
        spec_fx_mul(s, f.s2i as int))));
    let n2i = spec_sat_add(n1i, spec_fx_mul(r, spec_sat_add(spec_fx_mul(s, f.s2r as int),
        spec_fx_mul(c, f.s2i as int))));
    let n3r = spec_sat_add(n2r, spec_fx_mul(r, spec_sat_sub(spec_fx_mul(c, f.s3r as int),
        spec_fx_mul(s, f.s3i as int))));
    let n3i = spec_sat_add(n2i, spec_fx_mul(r, spec_sat_add(spec_fx_mul(s, f.s3r as int),
        spec_fx_mul(c, f.s3i as int))));
    GammatoneFilter {
        center_hz: f.center_hz,
        sample_rate: f.sample_rate,
        r: f.r,
        cos_omega: f.cos_omega,
        sin_omega: f.sin_omega,
        gain: f.gain,
        s0r: n0r as i64,
        s0i: n0i as i64,
        s1r: n1r as i64,
        s1i: n1i as i64,
        s2r: n2r as i64,
        s2i: n2i as i64,
        s3r: n3r as i64,
        s3i: n3i as i64,
    }
}

/// The instantaneous output of one sample: the magnitude of the final
/// stage's complex state after the cascade, saturated.
#[verifier::opaque]
pub closed spec fn spec_tick_out(f: GammatoneFilter, x: int) -> int {
    let g = spec_tick(f, x);
    sat64(spec_isqrt(((g.s3r as int) * (g.s3r as int) + (g.s3i as int) * (g.s3i as int)) as nat)
        as int)
}

/// Processing a sample keeps every configuration parameter.
proof fn lemma_tick_keeps_params(f: GammatoneFilter, x: int)
    ensures
        spec_tick(f, x).center_hz == f.center_hz,
        spec_tick(f, x).sample_rate == f.sample_rate,
        spec_tick(f, x).r == f.r,
        spec_tick(f, x).cos_omega == f.cos_omega,
        spec_tick(f, x).sin_omega == f.sin_omega,
        spec_tick(f, x).gain == f.gain,
{
    reveal(spec_tick);
}

/// The placeholder filter `Default` yields: a 1 kHz center at 48 kHz
/// with unit gain and no pole, so until configured each tick merely
/// reports the magnitude of the incoming sample.
pub closed spec fn spec_default_filter() -> GammatoneFilter {
    GammatoneFilter {
        center_hz: 4294967296000,
        sample_rate: 206158430208000,
        r: 0,
        cos_omega: 0,
        sin_omega: 0,
        gain: 0x1_0000_0000,
        s0r: 0,
        s0i: 0,
        s1r: 0,
        s1i: 0,
        s2r: 0,
        s2i: 0,
        s3r: 0,
        s3i: 0,
    }
}

impl Default for GammatoneFilter {
    /// The placeholder filter, exact per `spec_default_filter`.
    fn default() -> (f: Self)
        ensures
            f == spec_default_filter(),
    {
        GammatoneFilter {
            center_hz: 4294967296000,
            sample_rate: 206158430208000,
            r: 0,
            cos_omega: 0,
            sin_omega: 0,
            gain: FX_ONE,
            s0r: 0,
            s0i: 0,
            s1r: 0,
            s1i: 0,
            s2r: 0,
            s2i: 0,
            s3r: 0,
            s3i: 0,
        }
    }
}

impl GammatoneFilter {
    /// Create a new gammatone filter with the given parameters
    /// (all Q32.32, all at least one raw unit).
    pub fn new(center_hz: i64, bandwidth_hz: i64, sample_rate: i64) -> (f: Self)
        requires
            center_hz >= 1,
            bandwidth_hz >= 1,
            sample_rate >= 1,
        ensures
            f == spec_filter_params(center_hz as int, bandwidth_hz as int, sample_rate as int),
    {
        let mut f = GammatoneFilter {
            center_hz: 0,
            sample_rate: 0,
            r: 0,
            cos_omega: 0,
            sin_omega: 0,
            gain: 0,
            s0r: 0,
            s0i: 0,
            s1r: 0,
            s1i: 0,
            s2r: 0,
            s2i: 0,
            s3r: 0,
            s3i: 0,
        };
        f.configure(center_hz, bandwidth_hz, sample_rate);
        f
    }

    /// Configure the filter parameters and clear its state.
    pub fn configure(&mut self, center_hz: i64, bandwidth_hz: i64, sample_rate: i64)
        requires
            center_hz >= 1,
            bandwidth_hz >= 1,
            sample_rate >= 1,
        ensures
            *final(self) == spec_filter_params(center_hz as int, bandwidth_hz as int,
                sample_rate as int),
    {
        proof {
            reveal(spec_filter_params);
            lemma_fx_mul_nonneg(FX_TWO_PI as int, center_hz as int);
            lemma_fx_mul_nonneg(FX_TWO_PI as int, bandwidth_hz as int);
            lemma_fx_div_nonneg(spec_fx_mul(FX_TWO_PI as int, center_hz as int),
                sample_rate as int);
            lemma_fx_div_nonneg(spec_fx_mul(FX_TWO_PI as int, bandwidth_hz as int),
                sample_rate as int);
        }
        let omega = fx_div(fx_mul(FX_TWO_PI, center_hz), sample_rate);
        let bw = fx_div(fx_mul(FX_TWO_PI, bandwidth_hz), sample_rate);
        let r0 = exp_neg(bw);
        let r = if r0 < 1 {
            1
        } else if r0 > FX_ONE - 1 {
            FX_ONE - 1
        } else {
            r0
        };
        self.center_hz = center_hz;
        self.sample_rate = sample_rate;
        self.r = r;
        self.cos_omega = cosfx(omega);
        self.sin_omega = sinfx(omega);
        let omr = sat_sub(FX_ONE, r);
        let g2 = fx_mul(omr, omr);
        self.gain = fx_mul(fx_mul(g2, g2), FX_TWO);
        self.reset();
    }

    /// Reset the filter state, keeping the parameters.
    pub fn reset(&mut self)
        ensures
            *final(self) == spec_filter_reset(*old(self)),
    {
        self.s0r = 0;
        self.s0i = 0;
        self.s1r = 0;
        self.s1i = 0;
        self.s2r = 0;
        self.s2i = 0;
        self.s3r = 0;
        self.s3i = 0;
    }

    /// Process a single sample and return the instantaneous envelope,
    /// exact per `spec_tick` and `spec_tick_out`.
    pub fn process(&mut self, input: i64) -> (out: i64)
        ensures
            *final(self) == spec_tick(*old(self), input as int),
            out as int == spec_tick_out(*old(self), input as int),
    {
        proof {
            reveal(spec_tick);
            reveal(spec_tick_out);
        }
        let inr = fx_mul(input, self.gain);
        let n0r = sat_add(inr, fx_mul(self.r, sat_sub(fx_mul(self.cos_omega, self.s0r), fx_mul(
            self.sin_omega, self.s0i))));
        let n0i = fx_mul(self.r, sat_add(fx_mul(self.sin_omega, self.s0r), fx_mul(
            self.cos_omega, self.s0i)));
        let n1r = sat_add(n0r, fx_mul(self.r, sat_sub(fx_mul(self.cos_omega, self.s1r), fx_mul(
            self.sin_omega, self.s1i))));
        let n1i = sat_add(n0i, fx_mul(self.r, sat_add(fx_mul(self.sin_omega, self.s1r), fx_mul(
            self.cos_omega, self.s1i))));
        let n2r = sat_add(n1r, fx_mul(self.r, sat_sub(fx_mul(self.cos_omega, self.s2r), fx_mul(
            self.sin_omega, self.s2i))));
        let n2i = sat_add(n1i, fx_mul(self.r, sat_add(fx_mul(self.sin_omega, self.s2r), fx_mul(
            self.cos_omega, self.s2i))));
        let n3r = sat_add(n2r, fx_mul(self.r, sat_sub(fx_mul(self.cos_omega, self.s3r), fx_mul(
            self.sin_omega, self.s3i))));
        let n3i = sat_add(n2i, fx_mul(self.r, sat_add(fx_mul(self.sin_omega, self.s3r), fx_mul(
            self.cos_omega, self.s3i))));
        self.s0r = n0r;
        self.s0i = n0i;
        self.s1r = n1r;
        self.s1i = n1i;
        self.s2r = n2r;
        self.s2i = n2i;
        self.s3r = n3r;
        self.s3i = n3i;
        let ua: u128 = crate::fixed::abs_u128(n3r);
        let ub: u128 = crate::fixed::abs_u128(n3i);
        proof {
            assert(ua * ua == (n3r as int) * (n3r as int) && ub * ub == (n3i as int) * (n3i
                as int) && ua * ua <= 0x8000_0000_0000_0000 * 0x8000_0000_0000_0000 && ub * ub
                <= 0x8000_0000_0000_0000 * 0x8000_0000_0000_0000) by (nonlinear_arith)
                requires
                    ua == vstd::math::abs(n3r as int),
                    ub == vstd::math::abs(n3i as int),
                    ua <= 0x8000_0000_0000_0000,
                    ub <= 0x8000_0000_0000_0000,
            ;
        }
        let mm: u128 = ua * ua + ub * ub;
        let sq: u64 = isqrt128(mm);
        if sq > i64::MAX as u64 {
            i64::MAX
        } else {
            sq as i64
        }
    }

    /// Process a block of samples, writing each instantaneous envelope
    /// into `output`.
    pub fn process_block(&mut self, input: &[i64], output: &mut Vec<i64>)
        requires
            old(output)@.len() >= input@.len(),
        ensures
            final(output)@.len() == old(output)@.len(),
            *final(self) == spec_filter_run(*old(self), input@),
            forall|j: int|
                0 <= j < input@.len() ==> #[trigger] final(output)@[j] as int == spec_tick_out(
                    spec_filter_run(*old(self), input@.take(j)), input@[j] as int),
            forall|j: int|
                input@.len() <= j < old(output)@.len() ==> #[trigger] final(output)@[j] == old(
                    output,
                )@[j],
    {
        let ghost orig = *self;
        let ghost oout = output@;
        let n = input.len();
        let mut i: usize = 0;
        proof {
            assert(input@.take(0) =~= Seq::<i64>::empty());
        }
        while i < n
            invariant
                n == input@.len(),
                i <= n,
                output@.len() == oout.len(),
                oout.len() >= n,
                *self == spec_filter_run(orig, input@.take(i as int)),
                forall|j: int|
                    0 <= j < i ==> #[trigger] output@[j] as int == spec_tick_out(spec_filter_run(
                        orig, input@.take(j)), input@[j] as int),
                forall|j: int| i <= j < oout.len() ==> #[trigger] output@[j] == oout[j],
            decreases n - i,
        {
            let ghost pre = *self;
            let x = input[i];
            let out = self.process(x);
            output.set(i, out);
            proof {
                lemma_filter_run_snoc(orig, input@.take(i as int), x);
                assert(input@.take(i as int).push(x) =~= input@.take(i as int + 1));
            }
            i = i + 1;
        }
        proof {
            assert(input@.take(n as int) =~= input@);
        }
    }

    /// The configured center frequency, for contracts.
    pub closed spec fn spec_center_hz(self) -> i64 {
        self.center_hz
    }

    /// Get the center frequency in Q32.32 Hz.
    pub fn center_hz(&self) -> (r: i64)
        ensures
            r == self.spec_center_hz(),
    {
        self.center_hz
    }
}

/// The filter state after processing a sample sequence in order.
pub open spec fn spec_filter_run(f: GammatoneFilter, xs: Seq<i64>) -> GammatoneFilter
    decreases xs.len(),
{
    if xs.len() == 0 {
        f
    } else {
        spec_filter_run(spec_tick(f, xs[0] as int), xs.drop_first())
    }
}

/// Folding one more sample onto a run processes it last.
pub proof fn lemma_filter_run_snoc(f: GammatoneFilter, xs: Seq<i64>, x: i64)
    ensures
        spec_filter_run(f, xs.push(x)) == spec_tick(spec_filter_run(f, xs), x as int),
    decreases xs.len(),
{
    let p = xs.push(x);
    if xs.len() == 0 {
        assert(p.len() == 1 && p[0] == x);
        assert(p.drop_first() =~= Seq::<i64>::empty());
        assert(spec_filter_run(f, p) == spec_filter_run(spec_tick(f, p[0] as int),
            p.drop_first()));
        assert(spec_filter_run(spec_tick(f, x as int), Seq::<i64>::empty()) == spec_tick(f,
            x as int));
    } else {
        assert(p[0] == xs[0]);
        assert(p.drop_first() =~= xs.drop_first().push(x));
        assert(spec_filter_run(f, p) == spec_filter_run(spec_tick(f, xs[0] as int),
            p.drop_first()));
        lemma_filter_run_snoc(spec_tick(f, xs[0] as int), xs.drop_first(), x);
    }
}


/// Equality of the configuration parameters of two filters, ignoring
/// their mutable state.
pub closed spec fn spec_same_params(f: GammatoneFilter, g: GammatoneFilter) -> bool {
    f.center_hz == g.center_hz && f.sample_rate == g.sample_rate && f.r == g.r && f.cos_omega
        == g.cos_omega && f.sin_omega == g.sin_omega && f.gain == g.gain
}

/// Configuration for the gammatone filterbank.
#[derive(Debug, Clone, Copy, PartialEq, Eq, Structural)]
pub struct FilterbankConfig {
    /// Number of frequency bands.
    pub num_bands: usize,
    /// Minimum frequency, Q32.32 Hz.
    pub min_hz: i64,
    /// Maximum frequency, Q32.32 Hz.
    pub max_hz: i64,
    /// Sample rate, Q32.32 Hz.
    pub sample_rate: i64,
    /// Frequency scale for band spacing (ERB is standard for gammatone).
    pub spacing: Scale,
    /// Envelope smoothing time constant, Q32.32 milliseconds.
    pub smoothing_ms: i64,
}

/// The default configuration: 40 ERB-spaced bands over 20 Hz to 20 kHz
/// at 48 kHz, with 5 ms smoothing.
pub open spec fn spec_default_config() -> FilterbankConfig {
    FilterbankConfig {
        num_bands: 40,
        min_hz: 85899345920,
        max_hz: 85899345920000,
        sample_rate: 206158430208000,
        spacing: Scale::ERB,
        smoothing_ms: 21474836480,
    }
}

/// A configuration the filterbank accepts: at least one band, a bounded
/// band count, an ordered positive frequency range, and a positive
/// sample rate.
pub open spec fn spec_config_valid(c: FilterbankConfig) -> bool {
    &&& 1 <= c.num_bands <= 0x7FFF_FFFF
    &&& 1 <= c.min_hz < c.max_hz
    &&& c.sample_rate >= 1
}

impl Default for FilterbankConfig {
    /// The default configuration, exact per `spec_default_config`.
    fn default() -> (c: Self)
        ensures
            c == spec_default_config(),
            spec_config_valid(c),
    {
        FilterbankConfig {
            num_bands: 40,
            min_hz: 20 * FX_ONE,
            max_hz: 20000 * FX_ONE,
            sample_rate: 48000 * FX_ONE,
            spacing: Scale::ERB,
            smoothing_ms: 5 * FX_ONE,
        }
    }
}

impl FilterbankConfig {
    /// Whether the configuration is accepted, exact per
    /// `spec_config_valid`. Callers outside verified code should test
    /// this before building a filterbank.
    pub fn is_valid(&self) -> (b: bool)
        ensures
            b == spec_config_valid(*self),
    {
        self.num_bands >= 1 && self.num_bands <= 0x7FFF_FFFF && self.min_hz >= 1 && self.min_hz
            < self.max_hz && self.sample_rate >= 1
    }
}

/// The envelope smoothing coefficient of a configuration:
/// `alpha = e^(-1 / (tau * rate))` with `tau = smoothing_ms / 1000`, and
/// zero when smoothing is disabled or the time constant underflows.
pub open spec fn spec_smooth_coeff(c: FilterbankConfig) -> int {
    if c.smoothing_ms <= 0 {
        0
    } else {
        let tau_fs = spec_fx_mul(spec_fx_div(c.smoothing_ms as int, FX_1000 as int),
            c.sample_rate as int);
        if tau_fs < 1 {
            0
        } else {
            spec_exp_neg(spec_fx_div(FX_ONE as int, tau_fs))
        }
    }
}

/// The filter built for one band: centered on the band (floored to one
/// raw unit), with the ERB bandwidth at that center regardless of the
/// spacing scale.
pub open spec fn spec_filter_for_band(b: BandInfo, sample_rate: int) -> GammatoneFilter {
    let ctr = if b.center_hz < 1 {
        1
    } else {
        b.center_hz as int
    };
    let bw0 = spec_erb_bandwidth(ctr);
    let bw = if bw0 < 1 {
        1
    } else {
        bw0
    };
    spec_filter_params(ctr, bw, sample_rate)
}

/// One-pole exponential smoothing: `alpha * env + (1 - alpha) * mag`,
/// or the raw magnitude itself when the coefficient is zero.
pub open spec fn spec_smooth(coeff: int, env: int, mag: int) -> int {
    if coeff <= 0 {
        mag
    } else {
        spec_sat_add(spec_fx_mul(coeff, env), spec_fx_mul(spec_sat_sub(FX_ONE as int, coeff),
            mag))
    }
}

/// Per-band dB value: `20 * log10(mag)` for a positive magnitude, else
/// exactly the silence floor `min_db`.
pub open spec fn spec_db(mag: int, min_db: int) -> int {
    if mag > 0 {
        spec_fx_mul(FX_20 as int, spec_fx_mul(FX_LOG10_2 as int, spec_log2(mag)))
    } else {
        min_db
    }
}

/// All filters advanced by one sample.
pub open spec fn spec_fb_step_filters(filters: Seq<GammatoneFilter>, x: int) -> Seq<
    GammatoneFilter,
> {
    Seq::new(filters.len(), |i: int| spec_tick(filters[i], x))
}

/// The instantaneous magnitudes of one sample.
pub open spec fn spec_fb_step_mags(filters: Seq<GammatoneFilter>, x: int) -> Seq<i64> {
    Seq::new(filters.len(), |i: int| spec_tick_out(filters[i], x) as i64)
}

/// The smoothed envelope after one sample.
pub open spec fn spec_fb_step_env(
    filters: Seq<GammatoneFilter>,
    env: Seq<i64>,
    coeff: int,
    x: int,
) -> Seq<i64> {
    Seq::new(filters.len(), |i: int| spec_smooth(coeff, env[i] as int, spec_tick_out(filters[i],
        x)) as i64)
}

/// The filterbank state (filters, magnitudes, envelope) after processing
/// a sample sequence in order.
pub open spec fn spec_fb_run(
    filters: Seq<GammatoneFilter>,
    env: Seq<i64>,
    mags: Seq<i64>,
    coeff: int,
    xs: Seq<i64>,
) -> (Seq<GammatoneFilter>, Seq<i64>, Seq<i64>)
    decreases xs.len(),
{
    if xs.len() == 0 {
        (filters, mags, env)
    } else {
        spec_fb_run(spec_fb_step_filters(filters, xs[0] as int), spec_fb_step_env(filters, env,
            coeff, xs[0] as int), spec_fb_step_mags(filters, xs[0] as int), coeff,
            xs.drop_first())
    }
}

/// Folding one more sample onto a filterbank run processes it last.
pub proof fn lemma_fb_run_snoc(
    filters: Seq<GammatoneFilter>,
    env: Seq<i64>,
    mags: Seq<i64>,
    coeff: int,
    xs: Seq<i64>,
    x: i64,
)
    ensures
        spec_fb_run(filters, env, mags, coeff, xs.push(x)) == {
            let st = spec_fb_run(filters, env, mags, coeff, xs);
            (spec_fb_step_filters(st.0, x as int), spec_fb_step_mags(st.0, x as int),
                spec_fb_step_env(st.0, st.2, coeff, x as int))
        },
    decreases xs.len(),
{
    let p = xs.push(x);
    if xs.len() == 0 {
        assert(p.len() == 1 && p[0] == x);
        assert(p.drop_first() =~= Seq::<i64>::empty());
        assert(spec_fb_run(filters, env, mags, coeff, p) == spec_fb_run(spec_fb_step_filters(
            filters, x as int), spec_fb_step_env(filters, env, coeff, x as int),
            spec_fb_step_mags(filters, x as int), coeff, p.drop_first()));
    } else {
        assert(p[0] == xs[0]);
        assert(p.drop_first() =~= xs.drop_first().push(x));
        assert(spec_fb_run(filters, env, mags, coeff, p) == spec_fb_run(spec_fb_step_filters(
            filters, xs[0] as int), spec_fb_step_env(filters, env, coeff, xs[0] as int),
            spec_fb_step_mags(filters, xs[0] as int), coeff, p.drop_first()));
        lemma_fb_run_snoc(spec_fb_step_filters(filters, xs[0] as int), spec_fb_step_env(filters,
            env, coeff, xs[0] as int), spec_fb_step_mags(filters, xs[0] as int), coeff,
            xs.drop_first(), x);
    }
}

/// A bank of gammatone filters for spectrum analysis.
#[derive(Debug, Clone)]
pub struct GammatoneFilterbank {
    config: FilterbankConfig,
    bands: Vec<BandInfo>,
    filters: Vec<GammatoneFilter>,
    magnitudes: Vec<i64>,
    smoothed_magnitudes: Vec<i64>,
    smooth_coeff: i64,
}

impl GammatoneFilterbank {
    /// The active configuration, for contracts.
    pub closed spec fn spec_config(self) -> FilterbankConfig {
        self.config
    }

    /// The band metadata, for contracts.
    pub closed spec fn spec_bands(self) -> Seq<BandInfo> {
        self.bands@
    }

    /// The per-band filters, for contracts.
    pub closed spec fn spec_filters(self) -> Seq<GammatoneFilter> {
        self.filters@
    }

    /// The raw magnitude buffer, for contracts.
    pub closed spec fn spec_mags(self) -> Seq<i64> {
        self.magnitudes@
    }

    /// The smoothed envelope buffer, for contracts.
    pub closed spec fn spec_env(self) -> Seq<i64> {
        self.smoothed_magnitudes@
    }

    /// The smoothing coefficient, for contracts.
    pub closed spec fn spec_coeff(self) -> i64 {
        self.smooth_coeff
    }
}

/// Well-formedness: a valid configuration, all four arrays of the
/// configured length and index-aligned, bands exactly as the generator
/// produces them, each filter carrying the parameters derived from its
/// band, and the smoothing coefficient derived from the configuration.
pub open spec fn spec_fb_wf(fb: GammatoneFilterbank) -> bool {
    let c = fb.spec_config();
    &&& spec_config_valid(c)
    &&& fb.spec_bands().len() == c.num_bands
    &&& fb.spec_filters().len() == c.num_bands
    &&& fb.spec_mags().len() == c.num_bands
    &&& fb.spec_env().len() == c.num_bands
    &&& forall|i: int|
        0 <= i < c.num_bands ==> #[trigger] fb.spec_bands()[i] == spec_band(c.spacing,
            c.num_bands as int, c.min_hz as int, c.max_hz as int, i)
    &&& forall|i: int|
        0 <= i < c.num_bands ==> spec_same_params(#[trigger] fb.spec_filters()[i],
            spec_filter_for_band(fb.spec_bands()[i], c.sample_rate as int))
    &&& fb.spec_coeff() as int == spec_smooth_coeff(c)
}

/// The state a configuration step leaves behind: well-formed, with every
/// filter state and both output buffers zero. This predicate pins every
/// field as a function of the configuration alone, so any two states
/// satisfying it for the same configuration are bit-for-bit equal.
pub open spec fn spec_fb_fresh(fb: GammatoneFilterbank, c: FilterbankConfig) -> bool {
    &&& fb.spec_config() == c
    &&& spec_fb_wf(fb)
    &&& forall|i: int|
        0 <= i < c.num_bands ==> #[trigger] fb.spec_filters()[i] == spec_filter_for_band(
            fb.spec_bands()[i], c.sample_rate as int)
    &&& forall|i: int| 0 <= i < c.num_bands ==> #[trigger] fb.spec_mags()[i] == 0
    &&& forall|i: int| 0 <= i < c.num_bands ==> #[trigger] fb.spec_env()[i] == 0
}

/// Law: a reset or freshly built filterbank is bit-for-bit determined by
/// its configuration — two states fresh for the same configuration agree
/// on every field, so `reset()` reproduces a newly constructed instance
/// exactly.
pub proof fn lemma_fresh_is_unique(
    a: GammatoneFilterbank,
    b: GammatoneFilterbank,
    c: FilterbankConfig,
)
    requires
        spec_fb_fresh(a, c),
        spec_fb_fresh(b, c),
    ensures
        a.spec_config() == b.spec_config(),
        a.spec_bands() == b.spec_bands(),
        a.spec_filters() == b.spec_filters(),
        a.spec_mags() == b.spec_mags(),
        a.spec_env() == b.spec_env(),
        a.spec_coeff() == b.spec_coeff(),
{
    assert(a.spec_bands() =~= b.spec_bands());
    assert(a.spec_filters() =~= b.spec_filters());
    assert(a.spec_mags() =~= b.spec_mags());
    assert(a.spec_env() =~= b.spec_env());
}

/// Law: with smoothing disabled the smoothed envelope equals the raw
/// magnitude at every step — the coefficient of such a configuration is
/// zero, and a zero coefficient makes the envelope step return the raw
/// magnitudes unchanged.
pub proof fn lemma_zero_smoothing(
    c: FilterbankConfig,
    filters: Seq<GammatoneFilter>,
    env: Seq<i64>,
    x: int,
)
    requires
        c.smoothing_ms <= 0,
        env.len() == filters.len(),
    ensures
        spec_smooth_coeff(c) == 0,
        spec_fb_step_env(filters, env, spec_smooth_coeff(c), x) == spec_fb_step_mags(filters, x),
{
    assert(spec_fb_step_env(filters, env, 0, x) =~= spec_fb_step_mags(filters, x));
}

/// Law: with smoothing disabled, after processing any nonempty block
/// the smoothed envelope buffer equals the raw magnitude buffer — the
/// equality of `lemma_zero_smoothing` holds through every step of a
/// run.
pub proof fn lemma_zero_smoothing_run(
    filters: Seq<GammatoneFilter>,
    env: Seq<i64>,
    mags: Seq<i64>,
    xs: Seq<i64>,
)
    requires
        xs.len() >= 1,
        env.len() == filters.len(),
    ensures
        spec_fb_run(filters, env, mags, 0, xs).2 == spec_fb_run(filters, env, mags, 0, xs).1,
    decreases xs.len(),
{
    let nf = spec_fb_step_filters(filters, xs[0] as int);
    let nm = spec_fb_step_mags(filters, xs[0] as int);
    let ne = spec_fb_step_env(filters, env, 0, xs[0] as int);
    assert(ne =~= nm);
    assert(spec_fb_run(filters, env, mags, 0, xs) == spec_fb_run(nf, ne, nm, 0,
        xs.drop_first()));
    if xs.drop_first().len() == 0 {
        assert(spec_fb_run(nf, ne, nm, 0, xs.drop_first()) == (nf, nm, ne));
    } else {
        lemma_zero_smoothing_run(nf, ne, nm, xs.drop_first());
    }
}

/// A freshly configured filter equals the reset of any filter with the
/// same parameters.
proof fn lemma_reset_matches_fresh_filter(f: GammatoneFilter, g: GammatoneFilter)
    requires
        spec_same_params(f, g),
        g.s0r == 0 && g.s0i == 0 && g.s1r == 0 && g.s1i == 0 && g.s2r == 0 && g.s2i == 0
            && g.s3r == 0 && g.s3i == 0,
    ensures
        spec_filter_reset(f) == g,
{
}

/// Filter parameter fields produced by `spec_filter_params` have zeroed
/// state.
proof fn lemma_filter_params_state_zero(center_hz: int, bandwidth_hz: int, sample_rate: int)
    ensures
        ({
            let g = spec_filter_params(center_hz, bandwidth_hz, sample_rate);
            g.s0r == 0 && g.s0i == 0 && g.s1r == 0 && g.s1i == 0 && g.s2r == 0 && g.s2i == 0
                && g.s3r == 0 && g.s3i == 0
        }),
{
    reveal(spec_filter_params);
}

/// A vector of `n` zeros.
fn zero_vec(n: usize) -> (v: Vec<i64>)
    ensures
        v@.len() == n,
        forall|i: int| 0 <= i < n ==> #[trigger] v@[i] == 0,
{
    let mut v: Vec<i64> = Vec::new();
    let mut i: usize = 0;
    while i < n
        invariant
            v@.len() == i,
            i <= n,
            forall|j: int| 0 <= j < i ==> #[trigger] v@[j] == 0,
        decreases n - i,
    {
        v.push(0);
        i = i + 1;
    }
    v
}

impl Default for GammatoneFilterbank {
    /// A filterbank with the default configuration.
    fn default() -> (fb: Self)
        ensures
            spec_fb_fresh(fb, spec_default_config()),
    {
        Self::new()
    }
}

impl GammatoneFilterbank {
    /// Create a new filterbank with the default configuration.
    pub fn new() -> (fb: Self)
        ensures
            spec_fb_fresh(fb, spec_default_config()),
    {
        Self::with_config(FilterbankConfig::default())
    }

    /// Create a filterbank with the given configuration.
    pub fn with_config(config: FilterbankConfig) -> (fb: Self)
        requires
            spec_config_valid(config),
        ensures
            spec_fb_fresh(fb, config),
    {
        let mut fb = GammatoneFilterbank {
            config,
            bands: Vec::new(),
            filters: Vec::new(),
            magnitudes: Vec::new(),
            smoothed_magnitudes: Vec::new(),
            smooth_coeff: 0,
        };
        fb.configure(config);
        fb
    }

    /// Configure the filterbank: generate the bands, build one filter
    /// per band with the ERB bandwidth at its center, derive the
    /// smoothing coefficient, and zero the output buffers.
    pub fn configure(&mut self, config: FilterbankConfig)
        requires
            spec_config_valid(config),
        ensures
            spec_fb_fresh(*final(self), config),
    {
        self.config = config;
        self.bands = generate_bands(config.spacing, config.num_bands, config.min_hz,
            config.max_hz);
        self.filters = Vec::new();
        let n = config.num_bands;
        let mut i: usize = 0;
        while i < n
            invariant
                spec_config_valid(config),
                n == config.num_bands,
                self.bands@.len() == n,
                self.filters@.len() == i,
                i <= n,
                self.config == config,
                forall|j: int|
                    0 <= j < n ==> #[trigger] self.bands@[j] == spec_band(config.spacing,
                        n as int, config.min_hz as int, config.max_hz as int, j),
                forall|j: int|
                    0 <= j < i ==> #[trigger] self.filters@[j] == spec_filter_for_band(
                        self.bands@[j], config.sample_rate as int),
            decreases n - i,
        {
            let b = self.bands[i];
            let ctr: i64 = if b.center_hz < 1 {
                1
            } else {
                b.center_hz
            };
            let bw0 = erb_bandwidth(ctr);
            let bw: i64 = if bw0 < 1 {
                1
            } else {
                bw0
            };
            self.filters.push(GammatoneFilter::new(ctr, bw, config.sample_rate));
            i = i + 1;
        }
        if config.smoothing_ms > 0 {
            let tau_fs = fx_mul(fx_div(config.smoothing_ms, FX_1000), config.sample_rate);
            if tau_fs >= 1 {
                proof {
                    lemma_fx_div_nonneg(FX_ONE as int, tau_fs as int);
                }
                self.smooth_coeff = exp_neg(fx_div(FX_ONE, tau_fs));
            } else {
                self.smooth_coeff = 0;
            }
        } else {
            self.smooth_coeff = 0;
        }
        self.magnitudes = zero_vec(n);
        self.smoothed_magnitudes = zero_vec(n);
        proof {
            assert forall|j: int| 0 <= j < n implies spec_same_params(
                #[trigger] self.filters@[j], spec_filter_for_band(self.bands@[j],
                    config.sample_rate as int)) by {}
        }
    }

    /// Reset every filter state and zero both output buffers. The result
    /// satisfies the same full freshness predicate as a newly
    /// constructed instance with this configuration.
    pub fn reset(&mut self)
        requires
            spec_fb_wf(*old(self)),
        ensures
            spec_fb_fresh(*final(self), old(self).spec_config()),
    {
        let ghost c = self.config;
        let n = self.filters.len();
        let mut i: usize = 0;
        while i < n
            invariant
                spec_fb_wf(*old(self)),
                n == old(self).spec_config().num_bands,
                i <= n,
                self.config == old(self).config,
                self.bands == old(self).bands,
                self.smooth_coeff == old(self).smooth_coeff,
                self.magnitudes == old(self).magnitudes,
                self.smoothed_magnitudes == old(self).smoothed_magnitudes,
                self.filters@.len() == n,
                forall|j: int|
                    0 <= j < i ==> #[trigger] self.filters@[j] == spec_filter_reset(
                        old(self).spec_filters()[j]),
                forall|j: int|
                    i <= j < n ==> #[trigger] self.filters@[j] == old(self).spec_filters()[j],
            decreases n - i,
        {
            let mut f = self.filters[i];
            f.reset();
            self.filters.set(i, f);
            i = i + 1;
        }
        let mut i: usize = 0;
        while i < n
            invariant
                spec_fb_wf(*old(self)),
                n == old(self).spec_config().num_bands,
                i <= n,
                self.config == old(self).config,
                self.bands == old(self).bands,
                self.smooth_coeff == old(self).smooth_coeff,
                self.magnitudes@.len() == n,
                self.smoothed_magnitudes@.len() == n,
                self.filters@.len() == n,
                forall|j: int|
                    0 <= j < n ==> #[trigger] self.filters@[j] == spec_filter_reset(
                        old(self).spec_filters()[j]),
                forall|j: int| 0 <= j < i ==> #[trigger] self.magnitudes@[j] == 0,
                forall|j: int| 0 <= j < i ==> #[trigger] self.smoothed_magnitudes@[j] == 0,
            decreases n - i,
        {
            self.magnitudes.set(i, 0);
            self.smoothed_magnitudes.set(i, 0);
            i = i + 1;
        }
        proof {
            let cc = old(self).spec_config();
            assert forall|j: int| 0 <= j < cc.num_bands implies #[trigger] self.filters@[j]
                == spec_filter_for_band(self.bands@[j], cc.sample_rate as int) by {
                let target = spec_filter_for_band(old(self).spec_bands()[j],
                    cc.sample_rate as int);
                let b = old(self).spec_bands()[j];
                let ctr = if b.center_hz < 1 {
                    1
                } else {
                    b.center_hz as int
                };
                let bw0 = spec_erb_bandwidth(ctr);
                let bw = if bw0 < 1 {
                    1int
                } else {
                    bw0
                };
                lemma_filter_params_state_zero(ctr, bw, cc.sample_rate as int);
                lemma_reset_matches_fresh_filter(old(self).spec_filters()[j], target);
            }
        }
    }

    /// Process a single sample through all filters: store each raw
    /// magnitude, then fold it into the smoothed envelope.
    pub fn process(&mut self, input: i64)
        requires
            spec_fb_wf(*old(self)),
        ensures
            spec_fb_wf(*final(self)),
            final(self).spec_config() == old(self).spec_config(),
            final(self).spec_bands() == old(self).spec_bands(),
            final(self).spec_coeff() == old(self).spec_coeff(),
            final(self).spec_filters() == spec_fb_step_filters(old(self).spec_filters(),
                input as int),
            final(self).spec_mags() == spec_fb_step_mags(old(self).spec_filters(), input as int),
            final(self).spec_env() == spec_fb_step_env(old(self).spec_filters(),
                old(self).spec_env(), old(self).spec_coeff() as int, input as int),
    {
        let n = self.filters.len();
        let mut i: usize = 0;
        while i < n
            invariant
                spec_fb_wf(*old(self)),
                n == old(self).spec_config().num_bands,
                i <= n,
                self.config == old(self).config,
                self.bands == old(self).bands,
                self.smooth_coeff == old(self).smooth_coeff,
                self.filters@.len() == n,
                self.magnitudes@.len() == n,
                self.smoothed_magnitudes@.len() == n,
                forall|j: int|
                    0 <= j < i ==> #[trigger] self.filters@[j] == spec_tick(
                        old(self).spec_filters()[j], input as int),
                forall|j: int|
                    i <= j < n ==> #[trigger] self.filters@[j] == old(self).spec_filters()[j],
                forall|j: int|
                    0 <= j < i ==> #[trigger] self.magnitudes@[j] as int == spec_tick_out(
                        old(self).spec_filters()[j], input as int),
                forall|j: int|
                    0 <= j < i ==> #[trigger] self.smoothed_magnitudes@[j] as int == spec_smooth(
                        old(self).spec_coeff() as int, old(self).spec_env()[j] as int,
                        spec_tick_out(old(self).spec_filters()[j], input as int)),
                forall|j: int|
                    i <= j < n ==> #[trigger] self.smoothed_magnitudes@[j] == old(
                        self,
                    ).spec_env()[j],
            decreases n - i,
        {
            let mut f = self.filters[i];
            let mag = f.process(input);
            self.filters.set(i, f);
            self.magnitudes.set(i, mag);
            let env: i64 = if self.smooth_coeff > 0 {
                sat_add(fx_mul(self.smooth_coeff, self.smoothed_magnitudes[i]), fx_mul(sat_sub(
                    FX_ONE, self.smooth_coeff), mag))
            } else {
                mag
            };
            self.smoothed_magnitudes.set(i, env);
            i = i + 1;
        }
        proof {
            let c = old(self).spec_config();
            assert(self.spec_filters() =~= spec_fb_step_filters(old(self).spec_filters(),
                input as int));
            assert(self.spec_mags() =~= spec_fb_step_mags(old(self).spec_filters(),
                input as int));
            assert(self.spec_env() =~= spec_fb_step_env(old(self).spec_filters(),
                old(self).spec_env(), old(self).spec_coeff() as int, input as int));
            assert forall|j: int| 0 <= j < c.num_bands implies spec_same_params(
                #[trigger] self.spec_filters()[j], spec_filter_for_band(self.spec_bands()[j],
                    c.sample_rate as int)) by {
                lemma_tick_keeps_params(old(self).spec_filters()[j], input as int);
            }
        }
    }

    /// Process a block of samples in order.
    pub fn process_block(&mut self, input: &[i64])
        requires
            spec_fb_wf(*old(self)),
        ensures
            spec_fb_wf(*final(self)),
            final(self).spec_config() == old(self).spec_config(),
            final(self).spec_bands() == old(self).spec_bands(),
            final(self).spec_coeff() == old(self).spec_coeff(),
            (final(self).spec_filters(), final(self).spec_mags(), final(self).spec_env())
                == spec_fb_run(old(self).spec_filters(), old(self).spec_env(),
                old(self).spec_mags(), old(self).spec_coeff() as int, input@),
    {
        let ghost orig = *self;
        let n = input.len();
        let mut i: usize = 0;
        proof {
            assert(input@.take(0) =~= Seq::<i64>::empty());
        }
        while i < n
            invariant
                spec_fb_wf(*self),
                n == input@.len(),
                i <= n,
                self.spec_config() == orig.spec_config(),
                self.spec_bands() == orig.spec_bands(),
                self.spec_coeff() == orig.spec_coeff(),
                (self.spec_filters(), self.spec_mags(), self.spec_env()) == spec_fb_run(
                    orig.spec_filters(), orig.spec_env(), orig.spec_mags(),
                    orig.spec_coeff() as int, input@.take(i as int)),
            decreases n - i,
        {
            let x = input[i];
            self.process(x);
            proof {
                lemma_fb_run_snoc(orig.spec_filters(), orig.spec_env(), orig.spec_mags(),
                    orig.spec_coeff() as int, input@.take(i as int), x);
                assert(input@.take(i as int).push(x) =~= input@.take(i as int + 1));
            }
            i = i + 1;
        }
        proof {
            assert(input@.take(n as int) =~= input@);
        }
    }

    /// Get the number of bands.
    pub fn num_bands(&self) -> (n: usize)
        ensures
            n == self.spec_config().num_bands,
    {
        self.config.num_bands
    }

    /// Get the raw magnitudes (not smoothed).
    pub fn magnitudes(&self) -> (r: &Vec<i64>)
        ensures
            r@ == self.spec_mags(),
    {
        &self.magnitudes
    }

    /// Get the smoothed magnitudes.
    pub fn smoothed_magnitudes(&self) -> (r: &Vec<i64>)
        ensures
            r@ == self.spec_env(),
    {
        &self.smoothed_magnitudes
    }

    /// Get the band information.
    pub fn band_info(&self) -> (r: &Vec<BandInfo>)
        ensures
            r@ == self.spec_bands(),
    {
        &self.bands
    }

    /// Get the raw magnitude of one band.
    pub fn magnitude(&self, band: usize) -> (r: i64)
        requires
            band < self.spec_mags().len(),
        ensures
            r == self.spec_mags()[band as int],
    {
        self.magnitudes[band]
    }

    /// Get the smoothed magnitude of one band.
    pub fn smoothed_magnitude(&self, band: usize) -> (r: i64)
        requires
            band < self.spec_env().len(),
        ensures
            r == self.spec_env()[band as int],
    {
        self.smoothed_magnitudes[band]
    }

    /// Get the center frequency of one band, Q32.32 Hz.
    pub fn center_hz(&self, band: usize) -> (r: i64)
        requires
            band < self.spec_bands().len(),
        ensures
            r == self.spec_bands()[band as int].center_hz,
    {
        self.bands[band].center_hz
    }

    /// Write the smoothed magnitudes as dB values into `output`: a
    /// positive magnitude maps to `20 * log10(mag)`, any other exactly
    /// to `min_db`.
    pub fn magnitudes_db(&self, output: &mut Vec<i64>, min_db: i64)
        requires
            old(output)@.len() >= self.spec_env().len(),
        ensures
            final(output)@.len() == old(output)@.len(),
            forall|j: int|
                0 <= j < self.spec_env().len() ==> #[trigger] final(output)@[j] as int == spec_db(
                    self.spec_env()[j] as int, min_db as int),
            forall|j: int|
                self.spec_env().len() <= j < old(output)@.len() ==> #[trigger] final(output)@[j]
                    == old(output)@[j],
    {
        let ghost oout = output@;
        let n = self.smoothed_magnitudes.len();
        let mut i: usize = 0;
        while i < n
            invariant
                n == self.spec_env().len(),
                i <= n,
                output@.len() == oout.len(),
                oout.len() >= n,
                forall|j: int|
                    0 <= j < i ==> #[trigger] output@[j] as int == spec_db(
                        self.spec_env()[j] as int, min_db as int),
                forall|j: int| i <= j < oout.len() ==> #[trigger] output@[j] == oout[j],
            decreases n - i,
        {
            output.set(i, self.magnitude_db_value(self.smoothed_magnitudes[i], min_db));
            i = i + 1;
        }
    }

    /// Get the smoothed magnitude of one band as a dB value.
    pub fn magnitude_db(&self, band: usize, min_db: i64) -> (r: i64)
        requires
            band < self.spec_env().len(),
        ensures
            r as int == spec_db(self.spec_env()[band as int] as int, min_db as int),
            self.spec_env()[band as int] <= 0 ==> r == min_db,
    {
        self.magnitude_db_value(self.smoothed_magnitudes[band], min_db)
    }

    /// The dB value of one magnitude, exact per `spec_db`.
    fn magnitude_db_value(&self, mag: i64, min_db: i64) -> (r: i64)
        ensures
            r as int == spec_db(mag as int, min_db as int),
    {
        if mag > 0 {
            fx_mul(FX_20, fx_mul(FX_LOG10_2, log2fx(mag)))
        } else {
            min_db
        }
    }
}

} // verus!
