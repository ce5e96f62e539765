//! Spectrum analyser facade.
//!
//! A unified interface over the analysis methods — today the gammatone
//! filterbank is the only one — with mono and stereo entry points, a
//! fluent builder, and read-only accessors. Stereo input is mixed to
//! mono by exact integer averaging before the mono path runs, so two
//! identical channels behave precisely like one.

use vstd::prelude::*;

verus! {

use crate::fixed::FX_ONE;
use crate::scales::Scale;
use crate::scales::BandInfo;
use crate::scales::spec_tavg;
use crate::gammatone::FilterbankConfig;
use crate::gammatone::GammatoneFilterbank;
use crate::gammatone::spec_default_config;
use crate::gammatone::spec_config_valid;
use crate::gammatone::spec_fb_wf;
use crate::gammatone::spec_fb_fresh;
use crate::gammatone::spec_fb_run;
use crate::gammatone::spec_db;

/// -100.0 in Q32.32, the default dB silence floor.
pub const FX_MIN_DB: i64 = -429496729600;

/// Analysis method to use.
#[derive(Debug, Clone, Copy, PartialEq, Eq, Structural, Default)]
pub enum AnalysisMode {
    /// Gammatone filterbank (auditory model, lowest latency).
    #[default]
    Gammatone,
}

/// Two samples mixed to mono by averaging, truncated toward zero.
pub open spec fn spec_mix(a: int, b: int) -> int {
    spec_tavg(a, b)
}

/// Two channels mixed to mono, truncated to the shorter length.
pub open spec fn spec_mix_seq(left: Seq<i64>, right: Seq<i64>) -> Seq<i64> {
    let n = if left.len() <= right.len() {
        left.len()
    } else {
        right.len()
    };
    Seq::new(n, |i: int| spec_mix(left[i] as int, right[i] as int) as i64)
}

/// Law: averaging two identical channels is the identity, so stereo
/// processing of two equal signals matches mono processing of one.
pub proof fn lemma_mix_identical(s: Seq<i64>)
    ensures
        spec_mix_seq(s, s) == s,
{
    assert forall|i: int| 0 <= i < s.len() implies spec_mix(s[i] as int, s[i] as int) == s[i]
        as int by {
        let x = s[i] as int;
        assert(vstd::math::abs(x + x) == 2 * vstd::math::abs(x));
        assert((2 * vstd::math::abs(x)) / 2 == vstd::math::abs(x)) by (nonlinear_arith);
    }
    assert(spec_mix_seq(s, s) =~= s);
}

/// Law: stereo processing of two identical channels drives the
/// filterbank exactly as mono processing of that one channel, since the
/// mixed sequence is the channel itself.
pub proof fn lemma_stereo_matches_mono(
    filters: Seq<crate::gammatone::GammatoneFilter>,
    env: Seq<i64>,
    mags: Seq<i64>,
    coeff: int,
    s: Seq<i64>,
)
    ensures
        spec_fb_run(filters, env, mags, coeff, spec_mix_seq(s, s)) == spec_fb_run(filters, env,
            mags, coeff, s),
{
    lemma_mix_identical(s);
}

/// Mix two channels into a fresh mono buffer, exact per `spec_mix_seq`.
fn mix_channels(left: &[i64], right: &[i64]) -> (mono: Vec<i64>)
    ensures
        mono@ == spec_mix_seq(left@, right@),
{
    let n = if left.len() <= right.len() {
        left.len()
    } else {
        right.len()
    };
    let mut mono: Vec<i64> = Vec::new();
    let mut i: usize = 0;
    while i < n
        invariant
            n <= left@.len(),
            n <= right@.len(),
            mono@.len() == i,
            i <= n,
            forall|j: int|
                0 <= j < i ==> #[trigger] mono@[j] as int == spec_mix(left@[j] as int,
                    right@[j] as int),
        decreases n - i,
    {
        let sum: i128 = left[i] as i128 + right[i] as i128;
        let neg = sum < 0;
        let mag: u128 = if neg {
            (-sum) as u128
        } else {
            sum as u128
        };
        let half: u128 = mag / 2;
        let m: i64 = if neg {
            if half >= 0x8000_0000_0000_0000u128 {
                i64::MIN
            } else {
                -(half as i64)
            }
        } else {
            half as i64
        };
        proof {
            assert(vstd::math::abs(sum as int) == mag);
        }
        mono.push(m);
        i = i + 1;
    }
    proof {
        assert(mono@ =~= spec_mix_seq(left@, right@));
    }
    mono
}

/// A copy of an `i64` vector.
fn copy_vec(v: &Vec<i64>) -> (r: Vec<i64>)
    ensures
        r@ == v@,
{
    let mut r: Vec<i64> = Vec::new();
    let mut i: usize = 0;
    while i < v.len()
        invariant
            r@.len() == i,
            i <= v@.len(),
            forall|j: int| 0 <= j < i ==> #[trigger] r@[j] == v@[j],
        decreases v@.len() - i,
    {
        r.push(v[i]);
        i = i + 1;
    }
    proof {
        assert(r@ =~= v@);
    }
    r
}

/// Builder for creating an `Analyser` with custom configuration.
#[derive(Debug, Clone, Copy, PartialEq, Eq, Structural)]
pub struct AnalyserBuilder {
    mode: AnalysisMode,
    scale: Scale,
    num_bands: usize,
    min_hz: i64,
    max_hz: i64,
    sample_rate: i64,
    smoothing_ms: i64,
}

impl Default for AnalyserBuilder {
    /// A builder with the default settings.
    fn default() -> (b: Self)
        ensures
            b.spec_config() == spec_default_config(),
            b.spec_mode() == AnalysisMode::Gammatone,
    {
        Self::new()
    }
}

impl AnalyserBuilder {
    /// The filterbank configuration the builder will apply, for
    /// contracts.
    pub closed spec fn spec_config(self) -> FilterbankConfig {
        FilterbankConfig {
            num_bands: self.num_bands,
            min_hz: self.min_hz,
            max_hz: self.max_hz,
            sample_rate: self.sample_rate,
            spacing: self.scale,
            smoothing_ms: self.smoothing_ms,
        }
    }

    /// The selected analysis mode, for contracts.
    pub closed spec fn spec_mode(self) -> AnalysisMode {
        self.mode
    }

    /// Create a new builder with default settings.
    pub fn new() -> (b: Self)
        ensures
            b.spec_config() == spec_default_config(),
            b.spec_mode() == AnalysisMode::Gammatone,
    {
        AnalyserBuilder {
            mode: AnalysisMode::Gammatone,
            scale: Scale::ERB,
            num_bands: 40,
            min_hz: 20 * FX_ONE,
            max_hz: 20000 * FX_ONE,
            sample_rate: 48000 * FX_ONE,
            smoothing_ms: 5 * FX_ONE,
        }
    }

    /// Set the analysis mode.
    pub fn mode(self, mode: AnalysisMode) -> (b: Self)
        ensures
            b.spec_config() == self.spec_config(),
            b.spec_mode() == mode,
    {
        AnalyserBuilder { mode, ..self }
    }

    /// Set the frequency scale for band spacing.
    pub fn scale(self, scale: Scale) -> (b: Self)
        ensures
            b.spec_config() == (FilterbankConfig { spacing: scale, ..self.spec_config() }),
            b.spec_mode() == self.spec_mode(),
    {
        AnalyserBuilder { scale, ..self }
    }

    /// Set the number of frequency bands.
    pub fn bands(self, num_bands: usize) -> (b: Self)
        ensures
            b.spec_config() == (FilterbankConfig { num_bands, ..self.spec_config() }),
            b.spec_mode() == self.spec_mode(),
    {
        AnalyserBuilder { num_bands, ..self }
    }

    /// Set the frequency range, Q32.32 Hz.
    pub fn range(self, min_hz: i64, max_hz: i64) -> (b: Self)
        ensures
            b.spec_config() == (FilterbankConfig { min_hz, max_hz, ..self.spec_config() }),
            b.spec_mode() == self.spec_mode(),
    {
        AnalyserBuilder { min_hz, max_hz, ..self }
    }

    /// Set the sample rate, Q32.32 Hz.
    pub fn sample_rate(self, sample_rate: i64) -> (b: Self)
        ensures
            b.spec_config() == (FilterbankConfig { sample_rate, ..self.spec_config() }),
            b.spec_mode() == self.spec_mode(),
    {
        AnalyserBuilder { sample_rate, ..self }
    }

    /// Set the envelope smoothing time, Q32.32 milliseconds.
    pub fn smoothing(self, smoothing_ms: i64) -> (b: Self)
        ensures
            b.spec_config() == (FilterbankConfig { smoothing_ms, ..self.spec_config() }),
            b.spec_mode() == self.spec_mode(),
    {
        AnalyserBuilder { smoothing_ms, ..self }
    }

    /// Build the analyser. The settings must satisfy
    /// `spec_config_valid`; callers outside verified code should test
    /// them with `FilterbankConfig::is_valid` first.
    #[must_use]
    pub fn build(self) -> (a: Analyser)
        requires
            spec_config_valid(self.spec_config()),
        ensures
            a.spec_mode() == self.spec_mode(),
            spec_analyser_wf(a),
            spec_fb_fresh(a.spec_gammatone(), self.spec_config()),
    {
        let config = FilterbankConfig {
            num_bands: self.num_bands,
            min_hz: self.min_hz,
            max_hz: self.max_hz,
            sample_rate: self.sample_rate,
            spacing: self.scale,
            smoothing_ms: self.smoothing_ms,
        };
        let gammatone = GammatoneFilterbank::with_config(config);
        Analyser { mode: self.mode, num_bands: self.num_bands, sample_rate: self.sample_rate,
            gammatone, mono_buffer: Vec::new() }
    }
}

/// Main spectrum analyser for perceptual audio analysis.
#[derive(Debug, Clone)]
pub struct Analyser {
    mode: AnalysisMode,
    num_bands: usize,
    sample_rate: i64,
    gammatone: GammatoneFilterbank,
    mono_buffer: Vec<i64>,
}

impl Default for Analyser {
    /// An analyser with the default configuration.
    fn default() -> (a: Self)
        ensures
            spec_analyser_wf(a),
            spec_fb_fresh(a.spec_gammatone(), spec_default_config()),
            a.spec_mode() == AnalysisMode::Gammatone,
    {
        Self::new()
    }
}

/// Well-formedness: the owned filterbank is well-formed and the cached
/// band count and sample rate agree with its configuration.
pub open spec fn spec_analyser_wf(a: Analyser) -> bool {
    &&& spec_fb_wf(a.spec_gammatone())
    &&& a.spec_num_bands() == a.spec_gammatone().spec_config().num_bands
    &&& a.spec_sample_rate() == a.spec_gammatone().spec_config().sample_rate
}

impl Analyser {
    /// The selected analysis mode, for contracts.
    pub closed spec fn spec_mode(self) -> AnalysisMode {
        self.mode
    }

    /// The owned filterbank, for contracts.
    pub closed spec fn spec_gammatone(self) -> GammatoneFilterbank {
        self.gammatone
    }

    /// The cached band count, for contracts.
    pub closed spec fn spec_num_bands(self) -> usize {
        self.num_bands
    }

    /// The cached sample rate, for contracts.
    pub closed spec fn spec_sample_rate(self) -> i64 {
        self.sample_rate
    }

    /// The scratch mono mix buffer, for contracts.
    pub closed spec fn spec_mono_buffer(self) -> Seq<i64> {
        self.mono_buffer@
    }

    /// Create a builder for custom configuration.
    pub fn builder() -> (b: AnalyserBuilder)
        ensures
            b.spec_config() == spec_default_config(),
            b.spec_mode() == AnalysisMode::Gammatone,
    {
        AnalyserBuilder::new()
    }

    /// Create a new analyser with the default configuration.
    pub fn new() -> (a: Self)
        ensures
            spec_analyser_wf(a),
            spec_fb_fresh(a.spec_gammatone(), spec_default_config()),
            a.spec_mode() == AnalysisMode::Gammatone,
    {
        AnalyserBuilder::new().build()
    }

    /// Reset the analyser state to that of a freshly built instance.
    pub fn reset(&mut self)
        requires
            spec_analyser_wf(*old(self)),
        ensures
            spec_analyser_wf(*final(self)),
            final(self).spec_mode() == old(self).spec_mode(),
            spec_fb_fresh(final(self).spec_gammatone(),
                old(self).spec_gammatone().spec_config()),
    {
        self.gammatone.reset();
    }

    /// Process a block of samples and return the smoothed envelope, one
    /// value per band.
    #[must_use]
    pub fn process(&mut self, input: &[i64]) -> (envelope: Vec<i64>)
        requires
            spec_analyser_wf(*old(self)),
        ensures
            spec_analyser_wf(*final(self)),
            final(self).spec_mode() == old(self).spec_mode(),
            final(self).spec_gammatone().spec_config()
                == old(self).spec_gammatone().spec_config(),
            (final(self).spec_gammatone().spec_filters(),
                final(self).spec_gammatone().spec_mags(),
                final(self).spec_gammatone().spec_env())
                == spec_fb_run(old(self).spec_gammatone().spec_filters(),
                old(self).spec_gammatone().spec_env(), old(self).spec_gammatone().spec_mags(),
                old(self).spec_gammatone().spec_coeff() as int, input@),
            envelope@ == final(self).spec_gammatone().spec_env(),
    {
        match self.mode {
            AnalysisMode::Gammatone => {
                self.gammatone.process_block(input);
                copy_vec(self.gammatone.smoothed_magnitudes())
            },
        }
    }

    /// Process a stereo block: average the two channels, truncated to
    /// the shorter length, into the scratch mono buffer, then run the
    /// mono path and return the smoothed envelope.
    #[must_use]
    pub fn process_stereo(&mut self, left: &[i64], right: &[i64]) -> (envelope: Vec<i64>)
        requires
            spec_analyser_wf(*old(self)),
        ensures
            spec_analyser_wf(*final(self)),
            final(self).spec_mode() == old(self).spec_mode(),
            final(self).spec_gammatone().spec_config()
                == old(self).spec_gammatone().spec_config(),
            final(self).spec_mono_buffer() == spec_mix_seq(left@, right@),
            (final(self).spec_gammatone().spec_filters(),
                final(self).spec_gammatone().spec_mags(),
                final(self).spec_gammatone().spec_env())
                == spec_fb_run(old(self).spec_gammatone().spec_filters(),
                old(self).spec_gammatone().spec_env(), old(self).spec_gammatone().spec_mags(),
                old(self).spec_gammatone().spec_coeff() as int, spec_mix_seq(left@, right@)),
            envelope@ == final(self).spec_gammatone().spec_env(),
    {
        let mono = mix_channels(left, right);
        self.mono_buffer = mono;
        match self.mode {
            AnalysisMode::Gammatone => {
                self.gammatone.process_block(self.mono_buffer.as_slice());
                copy_vec(self.gammatone.smoothed_magnitudes())
            },
        }
    }

    /// Get the current smoothed envelope, as after the last `process`.
    #[must_use]
    pub fn envelope(&self) -> (r: &Vec<i64>)
        ensures
            r@ == self.spec_gammatone().spec_env(),
    {
        self.gammatone.smoothed_magnitudes()
    }

    /// Get the envelope in decibels with a -100 dB silence floor: a
    /// positive magnitude maps to `20 * log10(mag)`, any other exactly
    /// to the floor.
    #[must_use]
    pub fn envelope_db(&self) -> (r: Vec<i64>)
        requires
            spec_analyser_wf(*self),
        ensures
            r@.len() == self.spec_gammatone().spec_env().len(),
            forall|j: int|
                0 <= j < r@.len() ==> #[trigger] r@[j] as int == spec_db(
                    self.spec_gammatone().spec_env()[j] as int, FX_MIN_DB as int),
    {
        let n = self.gammatone.num_bands();
        let mut out: Vec<i64> = Vec::new();
        let mut i: usize = 0;
        while i < n
            invariant
                out@.len() == i,
                i <= n,
            decreases n - i,
        {
            out.push(0);
            i = i + 1;
        }
        self.gammatone.magnitudes_db(&mut out, FX_MIN_DB);
        out
    }

    /// Get the number of frequency bands.
    #[must_use]
    pub fn num_bands(&self) -> (n: usize)
        ensures
            n == self.spec_num_bands(),
    {
        self.num_bands
    }

    /// Get the sample rate, Q32.32 Hz.
    #[must_use]
    pub fn sample_rate(&self) -> (r: i64)
        ensures
            r == self.spec_sample_rate(),
    {
        self.sample_rate
    }

    /// Get the center frequency of one band, Q32.32 Hz.
    #[must_use]
    pub fn center_hz(&self, band: usize) -> (r: i64)
        requires
            band < self.spec_gammatone().spec_bands().len(),
        ensures
            r == self.spec_gammatone().spec_bands()[band as int].center_hz,
    {
        self.gammatone.center_hz(band)
    }

    /// Get the metadata of all frequency bands, in ascending order.
    #[must_use]
    pub fn bands(&self) -> (r: &Vec<BandInfo>)
        ensures
            r@ == self.spec_gammatone().spec_bands(),
    {
        self.gammatone.band_info()
    }
}

} // verus!
