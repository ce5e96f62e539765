//! Perceptual audio spectrum analysis on a deterministic fixed-point core.
//!
//! The library computes a perceptually scaled frequency-band energy profile
//! from a stream of audio samples: a bank of fourth-order gammatone IIR
//! filters, spaced on a configurable frequency scale (Linear, Log, Bark,
//! ERB or Mel), with per-band envelope smoothing and dB conversion.
//!
//! All quantities are Q32.32 fixed-point numbers: an `i64` holds a real
//! value scaled by 2^32. Every arithmetic step saturates instead of
//! wrapping, so every function is total and its result is pinned exactly
//! by the specification functions it is verified against.

use vstd::prelude::*;

pub mod fixed;
pub mod math;
pub mod scales;
pub mod gammatone;
pub mod analyser;

pub use fixed::FX_ONE;
pub use gammatone::{FilterbankConfig, GammatoneFilter, GammatoneFilterbank};
pub use analyser::{AnalysisMode, Analyser, AnalyserBuilder};
pub use scales::{
    bark_to_hz, critical_bandwidth, erb_bandwidth, erb_to_hz, generate_bands, hz_to_bark,
    hz_to_erb, hz_to_mel, mel_to_hz, BandInfo, Scale,
};
