use audiogram::channel::Channel;
use audiogram::envelope::{ConfigError, GAIN_SCALE};
use audiogram::sinewave::{phase_position, Sample, SineWave, PHASE_MODULUS, SAMPLE_RATE};

/// The playback-side conversion of one pulled sample to an amplitude.
fn sample_to_f32(s: Sample) -> f32 {
    match s {
        Sample::Silent => 0.0,
        Sample::Active { gain, phase } => {
            (gain as f32 / GAIN_SCALE as f32)
                * (2.0 * std::f32::consts::PI * phase as f32 / PHASE_MODULUS as f32).sin()
        }
    }
}

#[test]
fn zero_frequency_is_rejected() {
    let r = SineWave::new(0, 400, 400, Channel::Left);
    assert_eq!(r.unwrap_err(), ConfigError::InvalidFrequency);
}

#[test]
fn short_on_duration_is_rejected() {
    // A 10 ms on-duration cannot hold the default 25 ms fade-in: the
    // configuration is rejected instead of computing a negative-length
    // sustain segment.
    let r = SineWave::new(1_000_000, 10, 400, Channel::Left);
    assert_eq!(r.unwrap_err(), ConfigError::FadeExceedsOnDuration);
}

#[test]
fn explicit_fades_are_accepted_as_parameters() {
    let r = SineWave::with_fades(1_000_000, 100, 0, 50, 50, Channel::Right);
    let w = r.unwrap();
    assert_eq!(w.envelope().sustain_samples_len(), 0);
    let r = SineWave::with_fades(1_000_000, 100, 0, 60, 50, Channel::Right);
    assert_eq!(r.unwrap_err(), ConfigError::FadeExceedsOnDuration);
}

#[test]
fn format_contract_is_fixed() {
    let w = SineWave::new(1_000_000, 400, 400, Channel::Left).unwrap();
    assert_eq!(w.channels(), 2);
    assert_eq!(w.sample_rate(), 48000);
    assert_eq!(w.sample_rate(), SAMPLE_RATE);
    assert_eq!(w.current_frame_len(), None);
}

#[test]
fn oscillator_phase_is_exact() {
    // 1 kHz at 48 kHz: sample 48 completes one full period.
    assert_eq!(phase_position(1_000_000, 48, 48000), 0);
    // Sample 12 sits a quarter period in.
    assert_eq!(phase_position(1_000_000, 12, 48000), 12_000_000);
    // The position is a remainder: sample 60 equals sample 12.
    assert_eq!(phase_position(1_000_000, 60, 48000), 12_000_000);
    // Determinism of the oscillator: same arguments, same position.
    assert_eq!(
        phase_position(440_000, 987_654_321, 48000),
        phase_position(440_000, 987_654_321, 48000)
    );
}

#[test]
fn first_pulls_follow_the_model() {
    let mut w = SineWave::new(1_000_000, 400, 400, Channel::Left).unwrap();
    let g1: u32 = w.envelope().gain(1);
    let g3: u32 = w.envelope().gain(3);
    // Pull 1 lands on the first slot (left): counter 1, envelope index 1.
    assert_eq!(
        w.pull_one(),
        Sample::Active {
            gain: g1,
            phase: 1_000_000,
        }
    );
    // Pull 2 lands on the right slot: silence.
    assert_eq!(w.pull_one(), Sample::Silent);
    // Pull 3 is active again: counter 3, envelope index 3.
    assert_eq!(
        w.pull_one(),
        Sample::Active {
            gain: g3,
            phase: 3_000_000,
        }
    );

    // With the right channel under test, the first pull is silent.
    let mut w = SineWave::new(1_000_000, 400, 400, Channel::Right).unwrap();
    assert_eq!(w.pull_one(), Sample::Silent);
    assert!(matches!(w.pull_one(), Sample::Active { .. }));
}

#[test]
fn identical_configurations_are_deterministic() {
    let mut a = SineWave::new(1_000_000, 400, 400, Channel::Right).unwrap();
    let mut b = SineWave::new(1_000_000, 400, 400, Channel::Right).unwrap();
    for _ in 0..5000 {
        let sa = a.pull_one();
        let sb = b.pull_one();
        assert_eq!(sa, sb);
        // Bit-identical once converted to amplitudes.
        assert_eq!(sample_to_f32(sa).to_bits(), sample_to_f32(sb).to_bits());
    }
}

#[test]
fn active_slots_strictly_alternate() {
    let mut w = SineWave::new(1_000_000, 400, 400, Channel::Left).unwrap();
    let mut actives: u32 = 0;
    for k in 0..101 {
        let s = w.pull_one();
        let active = !matches!(s, Sample::Silent);
        // Strict alternation: even pulls land on the left channel.
        assert_eq!(active, k % 2 == 0);
        if active {
            actives += 1;
        }
    }
    // 101 pulls starting on the active slot: ceil(101/2) active ones.
    assert_eq!(actives, 51);

    let mut w = SineWave::new(1_000_000, 400, 400, Channel::Right).unwrap();
    let mut actives: u32 = 0;
    for k in 0..101 {
        let s = w.pull_one();
        let active = !matches!(s, Sample::Silent);
        assert_eq!(active, k % 2 == 1);
        if active {
            actives += 1;
        }
    }
    // 101 pulls starting on the inactive slot: floor(101/2) active ones.
    assert_eq!(actives, 50);
}

#[test]
fn amplitude_magnitude_never_exceeds_one() {
    let mut w = SineWave::new(7_345_000, 400, 400, Channel::Left).unwrap();
    for _ in 0..20000 {
        let amp = sample_to_f32(w.pull_one());
        assert!(amp.abs() <= 1.0);
    }
}

#[test]
fn quarter_period_pull_reaches_full_oscillation() {
    // 1 kHz, right channel: pull 12 lands on the right slot a quarter
    // period in, where the sine is exactly 1, so the amplitude equals the
    // envelope gain.
    let mut w = SineWave::new(1_000_000, 400, 400, Channel::Right).unwrap();
    let g12: u32 = w.envelope().gain(12);
    let mut last = Sample::Silent;
    for _ in 0..12 {
        last = w.pull_one();
    }
    assert_eq!(
        last,
        Sample::Active {
            gain: g12,
            phase: 12_000_000,
        }
    );
    let amp = sample_to_f32(last);
    let expected = g12 as f32 / GAIN_SCALE as f32;
    assert!((amp - expected).abs() < 1e-6);
}
