//! Tests for the analyser facade: builder, mono and stereo processing,
//! and the dB envelope.

use cortix::{Analyser, Scale};

fn fx(v: f64) -> i64 {
    (v * 4294967296.0).round() as i64
}

fn fl(v: i64) -> f64 {
    v as f64 / 4294967296.0
}

fn sine(freq: f64, rate: f64, n: usize) -> Vec<i64> {
    (0..n)
        .map(|i| {
            let t = i as f64 / rate;
            fx((2.0 * std::f64::consts::PI * freq * t).sin())
        })
        .collect()
}

#[test]
fn test_builder_default() {
    let analyser = Analyser::builder().build();
    assert_eq!(analyser.num_bands(), 40);
    assert_eq!(analyser.sample_rate(), fx(48000.0));
}

#[test]
fn test_builder_custom() {
    let analyser = Analyser::builder()
        .bands(24)
        .sample_rate(fx(44100.0))
        .scale(Scale::Bark)
        .build();

    assert_eq!(analyser.num_bands(), 24);
    assert_eq!(analyser.sample_rate(), fx(44100.0));
}

#[test]
fn test_process_returns_envelope() {
    let mut analyser = Analyser::new();

    // 100 ms of a 1 kHz sine wave.
    let signal = sine(1000.0, 48000.0, 4800);
    let envelope = analyser.process(&signal);
    assert_eq!(envelope.len(), 40);

    // Find the peak.
    let mut peak_band = 0;
    for i in 1..envelope.len() {
        if envelope[i] > envelope[peak_band] {
            peak_band = i;
        }
    }

    let peak_freq = fl(analyser.center_hz(peak_band));
    assert!(peak_freq > 800.0 && peak_freq < 1200.0, "Peak at {} Hz", peak_freq);
}

#[test]
fn test_process_stereo() {
    let mut analyser = Analyser::new();

    let signal = sine(440.0, 48000.0, 480);
    let envelope = analyser.process_stereo(&signal, &signal);
    assert_eq!(envelope.len(), 40);
}

#[test]
fn test_envelope_db() {
    let mut analyser = Analyser::new();
    let signal = sine(1000.0, 48000.0, 480);

    let _ = analyser.process(&signal);
    let db = analyser.envelope_db();
    assert_eq!(db.len(), 40);
}

#[test]
fn test_stereo_identical_equals_mono() {
    // Averaging two identical channels is the identity, so stereo and
    // mono processing agree bit for bit.
    let mut stereo = Analyser::new();
    let mut mono = Analyser::new();
    let signal = sine(1000.0, 48000.0, 960);

    let from_stereo = stereo.process_stereo(&signal, &signal);
    let from_mono = mono.process(&signal);
    assert_eq!(from_stereo, from_mono);
    assert_eq!(stereo.envelope(), mono.envelope());
    assert_eq!(stereo.envelope_db(), mono.envelope_db());
}

#[test]
fn test_stereo_truncates_to_shorter() {
    let mut a = Analyser::new();
    let left = sine(440.0, 48000.0, 480);
    let right = sine(440.0, 48000.0, 320);
    let envelope = a.process_stereo(&left, &right);
    assert_eq!(envelope.len(), 40);

    // Processing only the first 320 mixed samples in a second analyser
    // gives the same result.
    let mut b = Analyser::new();
    let envelope_b = b.process_stereo(&left[..320], &right);
    assert_eq!(envelope, envelope_b);
}

#[test]
fn test_analyser_reset() {
    let mut analyser = Analyser::new();
    let fresh = Analyser::new();
    let _ = analyser.process(&sine(250.0, 48000.0, 480));
    analyser.reset();
    assert_eq!(analyser.envelope(), fresh.envelope());
    assert_eq!(analyser.num_bands(), fresh.num_bands());
}

#[test]
fn test_envelope_db_floor_on_silence() {
    let mut analyser = Analyser::new();
    let silence = vec![0i64; 480];
    let envelope = analyser.process(&silence);
    assert!(envelope.iter().all(|&v| v == 0));
    let db = analyser.envelope_db();
    // Every band sits exactly on the -100 dB silence floor.
    for v in db {
        assert_eq!(v, fx(-100.0));
    }
}

#[test]
fn test_bands_metadata() {
    let analyser = Analyser::builder().bands(10).range(fx(50.0), fx(8000.0)).build();
    let bands = analyser.bands();
    assert_eq!(bands.len(), 10);
    for i in 0..10 {
        assert_eq!(bands[i].center_hz, analyser.center_hz(i));
        assert!(bands[i].low_hz <= bands[i].center_hz);
        assert!(bands[i].center_hz <= bands[i].high_hz);
    }
    assert!((fl(bands[0].low_hz) - 50.0).abs() < 0.1);
}
