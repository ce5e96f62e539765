//! Tests for the gammatone filterbank: construction, the 1 kHz sine
//! response, reset behavior, smoothing, and dB conversion.

use cortix::{FilterbankConfig, GammatoneFilterbank, Scale};

fn fx(v: f64) -> i64 {
    (v * 4294967296.0).round() as i64
}

fn fl(v: i64) -> f64 {
    v as f64 / 4294967296.0
}

fn sine(freq: f64, rate: f64, n: usize) -> Vec<i64> {
    (0..n)
        .map(|i| {
            let t = i as f64 / rate;
            fx((2.0 * std::f64::consts::PI * freq * t).sin())
        })
        .collect()
}

#[test]
fn test_filterbank_creation() {
    let fb = GammatoneFilterbank::new();
    assert_eq!(fb.num_bands(), 40);
}

#[test]
fn test_filterbank_custom_config() {
    let config = FilterbankConfig {
        num_bands: 24,
        sample_rate: fx(44100.0),
        ..Default::default()
    };
    let fb = GammatoneFilterbank::with_config(config);
    assert_eq!(fb.num_bands(), 24);
}

#[test]
fn test_filterbank_1khz_sine() {
    let config = FilterbankConfig {
        num_bands: 40,
        sample_rate: fx(48000.0),
        spacing: Scale::ERB,
        ..Default::default()
    };
    let mut fb = GammatoneFilterbank::with_config(config);

    // 100 ms of a 1 kHz sine wave.
    let signal = sine(1000.0, 48000.0, 4800);
    fb.process_block(&signal);

    // Find the peak band.
    let envelope = fb.smoothed_magnitudes();
    let mut peak_band = 0;
    for i in 1..envelope.len() {
        if envelope[i] > envelope[peak_band] {
            peak_band = i;
        }
    }

    // The peak should be near 1 kHz.
    let peak_freq = fl(fb.center_hz(peak_band));
    assert!(
        peak_freq > 800.0 && peak_freq < 1200.0,
        "Peak at {} Hz, expected near 1000 Hz",
        peak_freq
    );
}

#[test]
fn test_reset_matches_fresh() {
    let config = FilterbankConfig {
        num_bands: 16,
        sample_rate: fx(48000.0),
        ..Default::default()
    };
    let mut used = GammatoneFilterbank::with_config(config);
    let fresh = GammatoneFilterbank::with_config(config);

    used.process_block(&sine(440.0, 48000.0, 512));
    used.reset();

    // After reset every observable buffer matches the fresh instance
    // bit for bit.
    assert_eq!(used.num_bands(), fresh.num_bands());
    assert_eq!(used.magnitudes(), fresh.magnitudes());
    assert_eq!(used.smoothed_magnitudes(), fresh.smoothed_magnitudes());
    for i in 0..16 {
        assert_eq!(used.center_hz(i), fresh.center_hz(i));
    }

    // And the two produce bit-identical output from here on, so the
    // internal filter state matches too.
    let mut used = used;
    let mut fresh = fresh;
    let signal = sine(1000.0, 48000.0, 512);
    used.process_block(&signal);
    fresh.process_block(&signal);
    assert_eq!(used.magnitudes(), fresh.magnitudes());
    assert_eq!(used.smoothed_magnitudes(), fresh.smoothed_magnitudes());
}

#[test]
fn test_zero_smoothing_tracks_raw() {
    let config = FilterbankConfig {
        num_bands: 12,
        smoothing_ms: 0,
        ..Default::default()
    };
    let mut fb = GammatoneFilterbank::with_config(config);
    let signal = sine(1000.0, 48000.0, 256);
    for &x in &signal {
        fb.process(x);
        // With smoothing disabled the envelope equals the raw
        // magnitude after every single sample.
        assert_eq!(fb.smoothed_magnitudes(), fb.magnitudes());
    }
}

#[test]
fn test_smoothing_slows_step_response() {
    // Larger smoothing times strictly increase the number of samples
    // the envelope needs to reach half of the raw magnitude.
    let mut rise = Vec::new();
    for ms in [0.0, 5.0, 20.0] {
        let config = FilterbankConfig {
            num_bands: 40,
            sample_rate: fx(48000.0),
            smoothing_ms: fx(ms),
            ..Default::default()
        };
        let mut fb = GammatoneFilterbank::with_config(config);
        // Band index nearest 1 kHz.
        let mut band = 0;
        for i in 0..fb.num_bands() {
            if (fl(fb.center_hz(i)) - 1000.0).abs() < (fl(fb.center_hz(band)) - 1000.0).abs() {
                band = i;
            }
        }
        let signal = sine(1000.0, 48000.0, 2400);
        let mut hit = None;
        for (n, &x) in signal.iter().enumerate() {
            fb.process(x);
            let raw = fb.magnitude(band);
            let env = fb.smoothed_magnitude(band);
            if hit.is_none() && env > 0 && env * 2 >= raw {
                hit = Some(n);
            }
        }
        rise.push(hit.expect("envelope never reached half the raw magnitude"));
    }
    assert!(rise[0] < rise[1], "5 ms smoothing should rise slower than none");
    assert!(rise[1] < rise[2], "20 ms smoothing should rise slower than 5 ms");
}

#[test]
fn test_magnitude_db_silence_floor() {
    let fb = GammatoneFilterbank::new();
    // A fresh filterbank has zero magnitudes everywhere, so every band
    // maps exactly to the given floor.
    let min_db = fx(-72.5);
    for band in 0..fb.num_bands() {
        assert_eq!(fb.magnitude_db(band, min_db), min_db);
    }
    let mut out = vec![0i64; fb.num_bands()];
    fb.magnitudes_db(&mut out, min_db);
    for v in out {
        assert_eq!(v, min_db);
    }
}

#[test]
fn test_magnitude_db_positive() {
    let mut fb = GammatoneFilterbank::new();
    fb.process_block(&sine(1000.0, 48000.0, 4800));
    let min_db = fx(-100.0);
    let mut out = vec![0i64; fb.num_bands()];
    fb.magnitudes_db(&mut out, min_db);
    for band in 0..fb.num_bands() {
        let mag = fb.smoothed_magnitude(band);
        if mag > 0 {
            let expected = 20.0 * fl(mag).log10();
            assert!(
                (fl(out[band]) - expected).abs() < 0.01,
                "band {}: {} dB vs expected {}",
                band,
                fl(out[band]),
                expected
            );
        } else {
            assert_eq!(out[band], min_db);
        }
    }
}

#[test]
fn test_config_validation() {
    assert!(FilterbankConfig::default().is_valid());
    let zero_bands = FilterbankConfig {
        num_bands: 0,
        ..Default::default()
    };
    assert!(!zero_bands.is_valid());
    let inverted_range = FilterbankConfig {
        min_hz: fx(2000.0),
        max_hz: fx(100.0),
        ..Default::default()
    };
    assert!(!inverted_range.is_valid());
    let zero_rate = FilterbankConfig {
        sample_rate: 0,
        ..Default::default()
    };
    assert!(!zero_rate.is_valid());
}
