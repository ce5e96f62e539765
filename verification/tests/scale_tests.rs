//! Tests for the frequency scale conversions and the band generator.

use cortix::{
    bark_to_hz, critical_bandwidth, erb_bandwidth, erb_to_hz, generate_bands, hz_to_bark,
    hz_to_erb, hz_to_mel, mel_to_hz, Scale,
};

fn fx(v: f64) -> i64 {
    (v * 4294967296.0).round() as i64
}

fn fl(v: i64) -> f64 {
    v as f64 / 4294967296.0
}

fn approx_equal(a: f64, b: f64, tolerance: f64) -> bool {
    (a - b).abs() < tolerance
}

#[test]
fn test_bark_roundtrip() {
    let test_freqs = [100.0, 500.0, 1000.0, 4000.0, 10000.0];
    for hz in test_freqs {
        let bark = hz_to_bark(fx(hz));
        let back_hz = fl(bark_to_hz(bark));
        assert!(approx_equal(hz, back_hz, hz * 0.01));
    }
}

#[test]
fn test_bark_known_values() {
    assert!(approx_equal(fl(hz_to_bark(fx(100.0))), 0.77, 0.1));
    assert!(approx_equal(fl(hz_to_bark(fx(1000.0))), 8.5, 0.2));
}

#[test]
fn test_erb_roundtrip() {
    let test_freqs = [100.0, 500.0, 1000.0, 4000.0, 10000.0];
    for hz in test_freqs {
        let erb = hz_to_erb(fx(hz));
        let back_hz = fl(erb_to_hz(erb));
        assert!(approx_equal(hz, back_hz, hz * 0.01));
    }
}

#[test]
fn test_erb_bandwidth() {
    // At 1 kHz the ERB should be about 133 Hz.
    assert!(approx_equal(fl(erb_bandwidth(fx(1000.0))), 133.0, 5.0));
}

#[test]
fn test_mel_roundtrip() {
    let test_freqs = [100.0, 500.0, 1000.0, 4000.0, 10000.0];
    for hz in test_freqs {
        let mel = hz_to_mel(fx(hz));
        let back_hz = fl(mel_to_hz(mel));
        assert!(approx_equal(hz, back_hz, hz * 0.01));
    }
}

#[test]
fn test_mel_known_value() {
    // 1000 Hz is close to 1000 Mel.
    assert!(approx_equal(fl(hz_to_mel(fx(1000.0))), 1000.0, 50.0));
}

#[test]
fn test_band_generation() {
    let bands = generate_bands(Scale::ERB, 40, fx(20.0), fx(20000.0));
    assert_eq!(bands.len(), 40);

    // Check ascending order.
    for i in 1..bands.len() {
        assert!(bands[i].center_hz > bands[i - 1].center_hz);
    }

    // Check range bounds (allow small fixed-point rounding).
    assert!(fl(bands[0].low_hz) >= 19.99);
    assert!(fl(bands[0].low_hz) < 50.0);
    assert!(fl(bands.last().unwrap().high_hz) <= 20001.0);
    assert!(fl(bands.last().unwrap().high_hz) > 15000.0);
}

#[test]
fn test_band_generation_every_scale() {
    let scales = [Scale::Linear, Scale::Log, Scale::Bark, Scale::ERB, Scale::Mel];
    for scale in scales {
        let bands = generate_bands(scale, 40, fx(20.0), fx(20000.0));
        assert_eq!(bands.len(), 40);
        for i in 1..bands.len() {
            assert!(bands[i].center_hz > bands[i - 1].center_hz);
            assert_eq!(bands[i].low_hz, bands[i - 1].high_hz);
        }
        for b in &bands {
            assert!(b.low_hz <= b.center_hz && b.center_hz <= b.high_hz);
            assert_eq!(b.bandwidth_hz, b.high_hz - b.low_hz);
        }
        assert!(approx_equal(fl(bands[0].low_hz), 20.0, 0.1));
        assert!(approx_equal(fl(bands[39].high_hz), 20000.0, 30.0));
    }
}

#[test]
fn test_band_generation_single_band() {
    for scale in [Scale::Linear, Scale::Log, Scale::Bark, Scale::ERB, Scale::Mel] {
        let bands = generate_bands(scale, 1, fx(100.0), fx(200.0));
        assert_eq!(bands.len(), 1);
        let b = bands[0];
        assert!(b.low_hz <= b.center_hz && b.center_hz <= b.high_hz);
        assert!(approx_equal(fl(b.low_hz), 100.0, 0.5));
        assert!(approx_equal(fl(b.high_hz), 200.0, 0.5));
    }
}

#[test]
fn test_band_generation_narrow_range() {
    // A very narrow range still yields strictly ascending centers.
    let bands = generate_bands(Scale::Mel, 16, fx(1000.0), fx(1000.001));
    assert_eq!(bands.len(), 16);
    for i in 1..bands.len() {
        assert!(bands[i].center_hz > bands[i - 1].center_hz);
    }
}

#[test]
fn test_scale_exact_values() {
    // The fixed-point formulas are deterministic: exact raw results.
    assert_eq!(hz_to_bark(fx(1000.0)), 36625043416);
    assert_eq!(erb_bandwidth(fx(1000.0)), 569680165110);
    assert_eq!(hz_to_mel(fx(1000.0)), 4294905173445);
    assert_eq!(hz_to_erb(fx(1000.0)), 67093615423);
}

#[test]
fn test_critical_bandwidth() {
    // 25 + 75 * (1 + 1.4)^0.69 at 1 kHz is about 162 Hz.
    assert!(approx_equal(fl(critical_bandwidth(fx(1000.0))), 162.2, 2.0));
    // Narrow at low frequencies: near 25 + 75 = 100 for very small hz.
    assert!(approx_equal(fl(critical_bandwidth(fx(50.0))), 100.2, 2.0));
}

#[test]
fn test_forward_scales_strictly_increase() {
    // Each forward conversion is strictly increasing over the audible
    // range, sampled on a fine geometric grid.
    let mut freqs = Vec::new();
    let mut hz = 20.0f64;
    while hz <= 20000.0 {
        freqs.push(hz);
        hz *= 1.04;
    }
    for pair in freqs.windows(2) {
        assert!(hz_to_bark(fx(pair[0])) < hz_to_bark(fx(pair[1])));
        assert!(hz_to_erb(fx(pair[0])) < hz_to_erb(fx(pair[1])));
        assert!(hz_to_mel(fx(pair[0])) < hz_to_mel(fx(pair[1])));
    }
}
