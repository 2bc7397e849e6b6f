use oscy::fixed::{Fixed, ONE};
use oscy::noise::NoiseGen;

fn to_f64(x: Fixed) -> f64 {
    x.bits as f64 / 4294967296.0
}

/// Five uniform draws: 0.75, 0.25, the largest below one, 0.5 and 0.
fn draws() -> [Fixed; 5] {
    [
        Fixed { bits: 3 * ONE / 4 },
        Fixed { bits: ONE / 4 },
        Fixed { bits: ONE - 1 },
        Fixed { bits: ONE / 2 },
        Fixed { bits: 0 },
    ]
}

#[test]
fn white_noise_spreads_the_draw() {
    let mut noise = NoiseGen::white();
    let expected = [ONE / 2, -ONE / 2, ONE - 2, 0, -ONE];
    for (uniform, expected) in draws().into_iter().zip(expected) {
        assert_eq!(noise.next_sample_with(uniform), Fixed { bits: expected });
    }
}

#[test]
fn pink_noise_from_zero_taps_is_deterministic() {
    let mut noise = NoiseGen::pink();
    let expected = [389103455, -187335631, 731983742, 381935481, -487175831];
    for (uniform, expected) in draws().into_iter().zip(expected) {
        assert_eq!(noise.next_sample_with(uniform), Fixed { bits: expected });
    }
}

#[test]
fn pink_noise_follows_the_filter_coefficients() {
    let decay = [0.99886, 0.99332, 0.96900, 0.86650, 0.55000, -0.7616];
    let gain = [0.0555179, 0.0750759, 0.1538520, 0.3104856, 0.5329522, -0.0168980];
    let mut taps = [0.0f64; 6];
    let mut noise = NoiseGen::pink();
    let mut uniform: i64 = 123456789;
    for _ in 0..2000 {
        uniform = (uniform * 1103515245 + 12345) % ONE;
        let white = uniform as f64 / 4294967296.0 * 2.0 - 1.0;
        for i in 0..6 {
            taps[i] = decay[i] * taps[i] + white * gain[i];
        }
        let expected = (taps.iter().sum::<f64>() + white * 0.5362) * 0.11;
        let sample = to_f64(noise.next_sample_with(Fixed { bits: uniform }));
        assert!((sample - expected).abs() < 1e-6);
    }
}

#[test]
fn brown_noise_from_rest_is_deterministic() {
    let mut noise = NoiseGen::brown();
    let expected = [147376327, -2889733, 291919582, 286195668, -14168668];
    for (uniform, expected) in draws().into_iter().zip(expected) {
        assert_eq!(noise.next_sample_with(uniform), Fixed { bits: expected });
    }
}

#[test]
fn brown_noise_follows_the_integrator() {
    let mut prev = 0.0f64;
    let mut noise = NoiseGen::brown();
    let mut uniform: i64 = 987654321;
    for _ in 0..2000 {
        uniform = (uniform * 1103515245 + 12345) % ONE;
        let white = uniform as f64 / 4294967296.0 * 2.0 - 1.0;
        prev = (prev + 0.02 * white) / 1.02;
        let sample = to_f64(noise.next_sample_with(Fixed { bits: uniform }));
        assert!((sample - prev * 3.5).abs() < 1e-6);
    }
}

#[test]
fn taps_persist_between_samples() {
    let half_up = Fixed { bits: 3 * ONE / 4 };
    let mut noise = NoiseGen::pink();
    let first = noise.next_sample_with(half_up);
    let second = noise.next_sample_with(half_up);
    assert_ne!(first, second);
    let mut again = NoiseGen::pink();
    assert_eq!(again.next_sample_with(half_up), first);
}

#[test]
fn random_white_noise_lies_in_range() {
    let mut noise = NoiseGen::white();
    let mut distinct = false;
    let first = noise.next_sample();
    for _ in 0..1000 {
        let sample = noise.next_sample();
        assert!(-ONE <= sample.bits && sample.bits < ONE);
        distinct = distinct || sample != first;
    }
    assert!(distinct);
}

#[test]
fn random_pink_and_brown_noise_stay_small() {
    let mut pink = NoiseGen::pink();
    let mut brown = NoiseGen::brown();
    for _ in 0..10000 {
        assert!(to_f64(pink.next_sample()).abs() < 2.0);
        assert!(to_f64(brown.next_sample()).abs() < 4.0);
    }
}
