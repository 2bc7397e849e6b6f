use oscy::fixed::Fixed;
use oscy::naive::NaiveOsc;
use oscy::{Oscillator, Sample, Waveform};
use std::f32::consts::TAU;

const EPSILON: f32 = 1e-6;

fn approx_eq(a: f32, b: f32) -> bool {
    (a - b).abs() < EPSILON
}

/// The fixed-point number nearest to `x`.
fn fx(x: f32) -> Fixed {
    Fixed { bits: (x as f64 * 4294967296.0).round() as i64 }
}

fn to_f32(x: Fixed) -> f32 {
    (x.bits as f64 / 4294967296.0) as f32
}

/// The amplitude of a sample, with the sine evaluated in floating point.
fn value(sample: Sample) -> f32 {
    match sample {
        Sample::Value(level) => to_f32(level),
        Sample::SineOf(phase) => (to_f32(phase) * TAU).sin(),
    }
}

#[test]
fn test_sine_at_known_phases() {
    // 4 samples per cycle: phases 0.25, 0.5, 0.75, 0.0
    let mut osc = NaiveOsc::new(fx(4.0), fx(1.0), Waveform::Sine);

    assert!(approx_eq(value(osc.next_sample()), 1.0)); // sin(TAU * 0.25) = 1
    assert!(approx_eq(value(osc.next_sample()), 0.0)); // sin(TAU * 0.5) = 0
    assert!(approx_eq(value(osc.next_sample()), -1.0)); // sin(TAU * 0.75) = -1
    assert!(approx_eq(value(osc.next_sample()), 0.0)); // sin(TAU * 1.0) = 0
}

#[test]
fn test_saw_ramps_up() {
    let mut osc = NaiveOsc::new(fx(4.0), fx(1.0), Waveform::Saw);

    // Saw: 2 * phase - 1, phases: 0.25, 0.5, 0.75, 0.0
    assert!(approx_eq(value(osc.next_sample()), -0.5)); // 2 * 0.25 - 1
    assert!(approx_eq(value(osc.next_sample()), 0.0)); // 2 * 0.5 - 1
    assert!(approx_eq(value(osc.next_sample()), 0.5)); // 2 * 0.75 - 1
    assert!(approx_eq(value(osc.next_sample()), -1.0)); // 2 * 0.0 - 1 (wrapped)
}

#[test]
fn test_square_alternates() {
    let mut osc = NaiveOsc::new(fx(4.0), fx(1.0), Waveform::Square);

    // Square: 1 if phase < 0.5, else -1
    assert!(approx_eq(value(osc.next_sample()), 1.0)); // phase 0.25
    assert!(approx_eq(value(osc.next_sample()), -1.0)); // phase 0.5
    assert!(approx_eq(value(osc.next_sample()), -1.0)); // phase 0.75
    assert!(approx_eq(value(osc.next_sample()), 1.0)); // phase 0.0 (wrapped)
}

#[test]
fn test_triangle_peaks_at_midpoint() {
    let mut osc = NaiveOsc::new(fx(4.0), fx(1.0), Waveform::Triangle);

    // Triangle: ramps up to 1 at phase 0.5, then down to -1
    assert!(approx_eq(value(osc.next_sample()), 0.0)); // 4 * 0.25 - 1 = 0
    assert!(approx_eq(value(osc.next_sample()), 1.0)); // -4 * 0.5 + 3 = 1
    assert!(approx_eq(value(osc.next_sample()), 0.0)); // -4 * 0.75 + 3 = 0
    assert!(approx_eq(value(osc.next_sample()), -1.0)); // 4 * 0.0 - 1 = -1
}

#[test]
fn test_set_frequency_changes_increment() {
    let mut osc = NaiveOsc::new(fx(100.0), fx(10.0), Waveform::Sine);
    osc.next_sample(); // phase = 0.1

    osc.set_frequency(fx(20.0)); // now increment is 0.2
    osc.next_sample(); // phase = 0.3
    osc.next_sample(); // phase = 0.5

    assert!(approx_eq(value(osc.next_sample()), (0.7 * TAU).sin()));
}

#[test]
fn test_set_phase() {
    let mut osc = NaiveOsc::new(fx(4.0), fx(1.0), Waveform::Sine);
    osc.set_phase(fx(0.25));

    // After set_phase(0.25), next sample adds 0.25 -> phase 0.5
    assert!(approx_eq(value(osc.next_sample()), 0.0)); // sin(TAU * 0.5)
}

#[test]
fn test_reset_zeros_phase() {
    let mut osc = NaiveOsc::new(fx(4.0), fx(1.0), Waveform::Sine);
    osc.next_sample();
    osc.next_sample();

    osc.reset();

    // After reset phase = 0, next_sample increments to 0.25, sin(0.25 * TAU) = 1.0
    assert!(approx_eq(value(osc.next_sample()), 1.0));
}

#[test]
fn test_fill_buffer() {
    let mut osc = NaiveOsc::new(fx(4.0), fx(1.0), Waveform::Sine);
    let mut buffer = [Sample::Value(fx(0.0)); 4];

    osc.fill(&mut buffer);

    assert!(approx_eq(value(buffer[0]), 1.0));
    assert!(approx_eq(value(buffer[1]), 0.0));
    assert!(approx_eq(value(buffer[2]), -1.0));
    assert!(approx_eq(value(buffer[3]), 0.0));
}

#[test]
fn test_iterator() {
    let mut osc = NaiveOsc::new(fx(4.0), fx(1.0), Waveform::Sine);
    let samples: Vec<f32> = osc.take(4).into_iter().map(value).collect();

    assert!(approx_eq(samples[0], 1.0));
    assert!(approx_eq(samples[1], 0.0));
    assert!(approx_eq(samples[2], -1.0));
    assert!(approx_eq(samples[3], 0.0));
}

#[test]
fn sine_samples_carry_the_exact_phase() {
    let mut osc = NaiveOsc::new(Fixed::from_int(4), Fixed::from_int(1), Waveform::Sine);
    let quarter: i64 = 1 << 30;

    assert_eq!(osc.next_sample(), Sample::SineOf(Fixed { bits: quarter }));
    assert_eq!(osc.next_sample(), Sample::SineOf(Fixed { bits: 2 * quarter }));
    assert_eq!(osc.next_sample(), Sample::SineOf(Fixed { bits: 3 * quarter }));
    assert_eq!(osc.next_sample(), Sample::SineOf(Fixed { bits: 0 }));
}

#[test]
fn naive_levels_are_exact() {
    let one: i64 = 1 << 32;
    let mut saw = NaiveOsc::new(Fixed::from_int(8), Fixed::from_int(1), Waveform::Saw);
    let mut triangle = NaiveOsc::new(Fixed::from_int(8), Fixed::from_int(1), Waveform::Triangle);
    let mut square = NaiveOsc::new(Fixed::from_int(8), Fixed::from_int(1), Waveform::Square);

    // Phases 1/8, 2/8, ..., 7/8, 0.
    let saw_expected = [-3, -2, -1, 0, 1, 2, 3, -4];
    let triangle_expected = [-2, 0, 2, 4, 2, 0, -2, -4];
    let square_expected = [4, 4, 4, -4, -4, -4, -4, 4];
    for i in 0..8 {
        assert_eq!(saw.next_sample(), Sample::Value(Fixed { bits: saw_expected[i] * one / 4 }));
        assert_eq!(
            triangle.next_sample(),
            Sample::Value(Fixed { bits: triangle_expected[i] * one / 4 })
        );
        assert_eq!(square.next_sample(), Sample::Value(Fixed { bits: square_expected[i] * one / 4 }));
    }
}

#[test]
fn naive_levels_stay_in_unit_range() {
    let one: i64 = 1 << 32;
    for waveform in [Waveform::Saw, Waveform::Square, Waveform::Triangle] {
        let mut osc = NaiveOsc::new(Fixed::from_int(44100), Fixed::from_int(997), waveform);
        for _ in 0..5000 {
            match osc.next_sample() {
                Sample::Value(level) => assert!(-one <= level.bits && level.bits <= one),
                Sample::SineOf(_) => panic!("only a sine is given as a phase"),
            }
        }
    }
}

#[test]
fn a_full_cycle_repeats_the_samples() {
    // 16 increments of 1/16 make exactly one cycle.
    let mut osc = NaiveOsc::new(Fixed::from_int(16), Fixed::from_int(1), Waveform::Triangle);
    let first = osc.take(16);
    let second = osc.take(16);
    assert_eq!(first, second);
}

#[test]
fn reset_continues_as_a_new_oscillator() {
    let mut used = NaiveOsc::new(Fixed::from_int(10), Fixed::from_int(3), Waveform::Saw);
    used.take(7);
    used.reset();
    let mut fresh = NaiveOsc::new(Fixed::from_int(10), Fixed::from_int(3), Waveform::Saw);
    assert_eq!(used.next_sample(), fresh.next_sample());
    assert_eq!(used.take(20), fresh.take(20));
}

#[test]
fn set_phase_keeps_the_fractional_part() {
    // A new oscillator at 4 samples per cycle reaches phase 0.25 after one sample.
    let mut reference = NaiveOsc::new(Fixed::from_int(4), Fixed::from_int(1), Waveform::Saw);
    reference.next_sample();

    let mut osc = NaiveOsc::new(Fixed::from_int(4), Fixed::from_int(1), Waveform::Saw);
    osc.take(2);
    osc.set_phase(fx(3.25));
    assert_eq!(osc.next_sample(), reference.next_sample());
}

#[test]
fn set_phase_of_a_negative_number_keeps_its_sign() {
    let mut osc = NaiveOsc::new(Fixed::from_int(4), Fixed::from_int(0), Waveform::Saw);
    osc.set_phase(fx(-1.25));
    // The phase is -0.25 and stays there; the sawtooth is 2 * -0.25 - 1.
    assert_eq!(osc.next_sample(), Sample::Value(fx(-1.5)));
}

#[test]
fn set_frequency_to_the_current_one_changes_nothing() {
    let mut plain = NaiveOsc::new(Fixed::from_int(44100), Fixed::from_int(440), Waveform::Saw);
    let mut touched = NaiveOsc::new(Fixed::from_int(44100), Fixed::from_int(440), Waveform::Saw);
    touched.set_frequency(Fixed::from_int(440));
    assert_eq!(plain.take(50), touched.take(50));
    touched.set_frequency(Fixed::from_int(440));
    assert_eq!(plain.take(150), touched.take(150));
}

#[test]
fn negative_frequency_lowers_the_phase() {
    let mut osc = NaiveOsc::new(Fixed::from_int(4), Fixed::from_int(-1), Waveform::Saw);
    // Phases -0.25, -0.5, -0.75: nothing wraps a phase below zero.
    assert_eq!(osc.next_sample(), Sample::Value(fx(-1.5)));
    assert_eq!(osc.next_sample(), Sample::Value(fx(-2.0)));
    assert_eq!(osc.next_sample(), Sample::Value(fx(-2.5)));
}

#[test]
fn an_increment_above_one_is_wrapped_only_once() {
    let mut osc = NaiveOsc::new(Fixed::from_int(2), Fixed::from_int(5), Waveform::Saw);
    // The increment is 2.5: phases 1.5, then 3.0.
    assert_eq!(osc.next_sample(), Sample::Value(fx(2.0)));
    assert_eq!(osc.next_sample(), Sample::Value(fx(5.0)));
}

#[test]
fn fill_and_take_agree() {
    let mut a = NaiveOsc::new(Fixed::from_int(48000), Fixed::from_int(1000), Waveform::Triangle);
    let mut b = NaiveOsc::new(Fixed::from_int(48000), Fixed::from_int(1000), Waveform::Triangle);
    let mut buffer = [Sample::Value(Fixed::from_int(0)); 64];
    a.fill(&mut buffer);
    assert_eq!(buffer.to_vec(), b.take(64));
    assert_eq!(a.next_sample(), b.next_sample());
}
