use audiogram::envelope::{duration_samples, ConfigError, EnvelopeTable, GAIN_SCALE};

#[test]
fn duration_rounds_to_nearest_sample() {
    // 400 ms at 48 kHz is exactly 19200 samples (19200.5 rounds down).
    assert_eq!(duration_samples(400, 48000), 19200);
    // 25 ms at 48 kHz is exactly 1200 samples.
    assert_eq!(duration_samples(25, 48000), 1200);
    // 3 ms at 999 Hz is 2.997 samples and rounds up to 3.
    assert_eq!(duration_samples(3, 999), 3);
    // 1 ms at 100 Hz is 0.1 samples and rounds down to 0.
    assert_eq!(duration_samples(1, 100), 0);
}

#[test]
fn table_length_is_on_plus_off() {
    let t = EnvelopeTable::build(400, 400, 25, 25, 48000).unwrap();
    assert_eq!(t.len(), 38400);
    assert_eq!(t.fade_in_samples(), 1200);
    assert_eq!(t.sustain_samples_len(), 16800);
    assert_eq!(t.fade_out_samples(), 1200);
    assert_eq!(t.off_samples(), 19200);

    let t = EnvelopeTable::build(123, 77, 10, 20, 48000).unwrap();
    assert_eq!(t.len(), 5904 + 3696);
    assert_eq!(t.fade_in_samples(), 480);
    assert_eq!(t.fade_out_samples(), 960);
    assert_eq!(t.sustain_samples_len(), 5904 - 480 - 960);
    assert_eq!(t.off_samples(), 3696);
}

#[test]
fn fade_in_profile_concrete() {
    let t = EnvelopeTable::build(400, 400, 25, 25, 48000).unwrap();
    // Quadratic ease-in: (i/1200)^2 in fixed point.
    assert_eq!(t.gain(0), 0);
    assert_eq!(t.gain(600), 250_000);
    // Last ramp index approaches full amplitude: (1199/1200)^2.
    assert_eq!(t.gain(1199), 998_334);
    // First sustain index is exactly full amplitude.
    assert_eq!(t.gain(1200), GAIN_SCALE);
    assert_eq!(t.gain(17999), GAIN_SCALE);
}

#[test]
fn fade_out_profile_concrete() {
    let t = EnvelopeTable::build(400, 400, 25, 25, 48000).unwrap();
    // Fade-out runs over indices 18000..19200: 1 - (i/1200)^2.
    assert_eq!(t.gain(18000), GAIN_SCALE);
    assert_eq!(t.gain(18600), 750_000);
    assert_eq!(t.gain(19199), GAIN_SCALE - 998_334);
}

#[test]
fn off_region_is_exactly_silent() {
    let t = EnvelopeTable::build(400, 400, 25, 25, 48000).unwrap();
    for i in 19200..38400 {
        assert_eq!(t.gain(i), 0);
    }
}

#[test]
fn gains_monotone_and_bounded() {
    let t = EnvelopeTable::build(400, 400, 25, 25, 48000).unwrap();
    // Non-decreasing across the fade-in segment.
    for i in 1..1200 {
        assert!(t.gain(i - 1) <= t.gain(i));
    }
    // Non-increasing across the fade-out segment.
    for i in 18001..19200 {
        assert!(t.gain(i - 1) >= t.gain(i));
    }
    // Every gain lies between silence and full amplitude.
    for i in 0..t.len() {
        assert!(t.gain(i) <= GAIN_SCALE);
    }
}

#[test]
fn fades_filling_on_leave_empty_sustain() {
    // 25 + 25 ms of fades exactly fill a 50 ms on-duration.
    let t = EnvelopeTable::build(50, 0, 25, 25, 48000).unwrap();
    assert_eq!(t.sustain_samples_len(), 0);
    assert_eq!(t.len(), 2400);
    assert_eq!(t.fade_in_samples(), 1200);
    assert_eq!(t.fade_out_samples(), 1200);
}

#[test]
fn fades_exceeding_on_are_rejected() {
    let r = EnvelopeTable::build(40, 0, 25, 25, 48000);
    assert_eq!(r.unwrap_err(), ConfigError::FadeExceedsOnDuration);
    // One sample too many is still rejected: 1201 + 1200 > 2400.
    let r = EnvelopeTable::build(50, 100, 25, 26, 48000);
    assert!(r.is_err());
}
