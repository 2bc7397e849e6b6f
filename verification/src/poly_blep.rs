//! Bandlimited oscillators using the polynomial bandlimited step (polyBLEP).
//!
//! A sawtooth jumps once per cycle and a square wave twice. Sampling such a
//! jump directly aliases, so within one sample period on either side of a
//! jump a short polynomial is added that smooths it.
use crate::fixed::{
    difference, fraction, lemma_fraction_is_remainder, lemma_product_by_whole, product, ratio, sum,
    Fixed, ONE,
};
use crate::naive::{
    lemma_naive_levels_in_range, naive_sample, saw, saw_level, square, square_level, synthesize,
};
use crate::phase::{advance, OscillatorState};
use crate::{Oscillator, Sample, Waveform};
use vstd::prelude::*;

verus! {

/// The polyBLEP residual at `phase` for a unit step at phase zero, when the
/// phase moves by `increment` per sample.
///
/// Just after the step (`phase < increment`), with t = phase / increment, it
/// is 2t - t² - 1. Just before the next one (`phase > 1 - increment`), with
/// t = (phase - 1) / increment, it is t² + 2t + 1. Elsewhere it is zero; both
/// comparisons are strict.
pub open spec fn correction(phase: int, increment: int) -> int {
    if phase < increment {
        let t = ratio(phase, increment);
        difference(difference(product(2 * ONE, t), product(t, t)), ONE as int)
    } else if phase > difference(ONE as int, increment) {
        let t = ratio(difference(phase, ONE as int), increment);
        sum(sum(product(t, t), product(2 * ONE, t)), ONE as int)
    } else {
        0
    }
}

/// The residual at phase zero is -1 for every positive increment.
pub proof fn lemma_correction_at_zero(increment: int)
    requires
        0 < increment,
    ensures
        correction(0, increment) == -ONE,
{
    assert(0int * ONE == 0);
    assert(0int / increment == 0) by (nonlinear_arith)
        requires
            0 < increment,
    ;
    lemma_product_by_whole(2, 0);
    assert(0int * 0int == 0);
}

/// The residual is zero at the exact edges of its two windows, the phases
/// `increment` and `1 - increment`, because both comparisons are strict. This
/// holds while the windows do not overlap, that is for increments up to one
/// half.
pub proof fn lemma_correction_at_window_edges(increment: int)
    requires
        i64::MIN <= increment <= i64::MAX,
        2 * increment <= ONE,
    ensures
        correction(increment, increment) == 0,
        correction(difference(ONE as int, increment), increment) == 0,
{
}

/// Away from the step the residual is zero: from one increment after it to
/// one increment before the next.
pub proof fn lemma_correction_vanishes_between(phase: int, increment: int)
    requires
        increment <= phase <= difference(ONE as int, increment),
    ensures
        correction(phase, increment) == 0,
        bandlimited_saw(phase, increment) == saw_level(phase),
{
}

/// For t in [0, 1), t² rounded down to units lies between 2t - 1 and t.
proof fn lemma_square_of_fraction(t: int)
    requires
        0 <= t < ONE,
    ensures
        2 * t - ONE <= (t * t) / (ONE as int) <= t,
{
    let one = ONE as int;
    let q = (t * t) / one;
    assert(q * one <= t * t < (q + 1) * one) by (nonlinear_arith)
        requires
            q == (t * t) / one,
            one > 0,
    ;
    assert(q <= t) by (nonlinear_arith)
        requires
            q * one <= t * t,
            0 <= t < one,
    ;
    assert(2 * t - one <= q) by (nonlinear_arith)
        requires
            t * t < (q + 1) * one,
            0 <= t < one,
    ;
}

/// Within a cycle the residual never exceeds the height of the step it
/// smooths: after the step it lies in [-1, 0], before the next one in [0, 1].
pub proof fn lemma_correction_in_range(phase: int, increment: int)
    requires
        0 <= phase < ONE,
        i64::MIN <= increment <= i64::MAX,
    ensures
        phase < increment ==> -ONE <= correction(phase, increment) <= 0,
        phase >= increment ==> 0 <= correction(phase, increment) <= ONE,
{
    let one = ONE as int;
    if phase < increment {
        let t = (phase * one) / increment;
        assert(0 <= t < one) by (nonlinear_arith)
            requires
                t == (phase * one) / increment,
                0 <= phase < increment,
                one > 0,
        ;
        assert(phase * one >= 0) by (nonlinear_arith)
            requires
                phase >= 0,
                one > 0,
        ;
        assert(ratio(phase, increment) == t);
        lemma_product_by_whole(2, t);
        lemma_square_of_fraction(t);
        assert(t * t >= 0) by (nonlinear_arith);
        assert(product(t, t) == (t * t) / one);
    } else if phase > difference(one, increment) {
        let gap = one - phase;
        let s = (gap * one) / increment;
        assert(0 <= s < one) by (nonlinear_arith)
            requires
                s == (gap * one) / increment,
                0 < gap < increment,
                one > 0,
        ;
        assert(gap * one > 0 && (phase - one) * one == -(gap * one)) by (nonlinear_arith)
            requires
                gap == one - phase,
                gap > 0,
                one > 0,
        ;
        let t = ratio(difference(phase, one), increment);
        assert(t == -s);
        lemma_product_by_whole(2, t);
        lemma_square_of_fraction(s);
        assert(t * t == s * s && s * s >= 0) by (nonlinear_arith)
            requires
                t == -s,
        ;
        assert(product(t, t) == (s * s) / one);
    }
}

/// Below half the sample rate the bandlimited sawtooth stays within [-1, 1]
/// over the whole cycle.
pub proof fn lemma_bandlimited_saw_in_range(phase: int, increment: int)
    requires
        0 <= phase < ONE,
        i64::MIN <= increment,
        2 * increment <= ONE,
    ensures
        -ONE <= bandlimited_saw(phase, increment) <= ONE,
{
    lemma_naive_levels_in_range(phase);
    lemma_correction_in_range(phase, increment);
}

/// Below a quarter of the sample rate the windows of the two steps of the
/// square wave lie apart, and the bandlimited square wave stays within
/// [-1, 1] over the whole cycle.
pub proof fn lemma_bandlimited_square_in_range(phase: int, increment: int)
    requires
        0 <= phase < ONE,
        i64::MIN <= increment,
        4 * increment <= ONE,
    ensures
        -ONE <= bandlimited_square(phase, increment) <= ONE,
{
    let shifted = fraction(sum(phase, ONE / 2));
    lemma_fraction_is_remainder(sum(phase, ONE / 2));
    assert(shifted == if phase < ONE / 2 {
        phase + ONE / 2
    } else {
        phase - ONE / 2
    });
    lemma_correction_in_range(phase, increment);
    lemma_correction_in_range(shifted, increment);
}

/// At any frequency the smoothing moves a sample within the cycle by no
/// more than the height of each step: the bandlimited sawtooth stays within
/// [-2, 2] and the bandlimited square wave within [-3, 3].
pub proof fn lemma_bandlimited_overshoot_is_bounded(phase: int, increment: int)
    requires
        0 <= phase < ONE,
        i64::MIN <= increment <= i64::MAX,
    ensures
        -2 * ONE <= bandlimited_saw(phase, increment) <= 2 * ONE,
        -3 * ONE <= bandlimited_square(phase, increment) <= 3 * ONE,
{
    let shifted = fraction(sum(phase, ONE / 2));
    lemma_fraction_is_remainder(sum(phase, ONE / 2));
    assert(shifted == if phase < ONE / 2 {
        phase + ONE / 2
    } else {
        phase - ONE / 2
    });
    lemma_naive_levels_in_range(phase);
    lemma_correction_in_range(phase, increment);
    lemma_correction_in_range(shifted, increment);
}

/// The bandlimited sawtooth: the naive one less the residual of its step at
/// phase zero.
pub open spec fn bandlimited_saw(phase: int, increment: int) -> int {
    difference(saw_level(phase), correction(phase, increment))
}

/// The bandlimited square wave: the naive one plus the residual of its
/// rising step at phase zero, less that of its falling step half a cycle on.
pub open spec fn bandlimited_square(phase: int, increment: int) -> int {
    difference(
        sum(square_level(phase), correction(phase, increment)),
        correction(fraction(sum(phase, ONE / 2)), increment),
    )
}

/// The sample of `waveform` at `phase` with the steps of the sawtooth and of
/// the square wave smoothed. Sine and triangle have no step and are left as
/// they are.
pub open spec fn bandlimited_sample(waveform: Waveform, phase: int, increment: int) -> Sample {
    match waveform {
        Waveform::Saw => Sample::Value(Fixed { bits: bandlimited_saw(phase, increment) as i64 }),
        Waveform::Square => Sample::Value(
            Fixed { bits: bandlimited_square(phase, increment) as i64 },
        ),
        _ => naive_sample(waveform, phase),
    }
}

/// A bandlimited oscillator using polynomial bandlimited step (polyBLEP).
pub struct PolyBlepOsc {
    phase: Fixed,
    phase_increment: Fixed,
    sample_rate: Fixed,
    waveform: Waveform,
}

impl View for PolyBlepOsc {
    type V = OscillatorState;

    closed spec fn view(&self) -> OscillatorState {
        OscillatorState {
            phase: self.phase@,
            increment: self.phase_increment@,
            sample_rate: self.sample_rate@,
            waveform: self.waveform,
        }
    }
}

impl PolyBlepOsc {
    /// Creates a new polyBLEP oscillator.
    pub fn new(sample_rate: Fixed, frequency: Fixed, waveform: Waveform) -> (osc: Self)
        ensures
            osc@ == OscillatorState::fresh(sample_rate@, frequency@, waveform),
    {
        PolyBlepOsc {
            phase: Fixed::from_int(0),
            phase_increment: frequency.saturating_div(sample_rate),
            sample_rate,
            waveform,
        }
    }

    /// Computes the polyBLEP correction for a given phase.
    pub fn poly_blep(&self, phase: Fixed) -> (blep: Fixed)
        ensures
            blep@ == correction(phase@, self@.increment),
    {
        let one = Fixed::from_int(1);
        let two = Fixed::from_int(2);
        if phase.lt(self.phase_increment) {
            let t = phase.saturating_div(self.phase_increment);
            return two.saturating_mul(t).saturating_sub(t.saturating_mul(t)).saturating_sub(one);
        }
        if phase.gt(one.saturating_sub(self.phase_increment)) {
            let t = phase.saturating_sub(one).saturating_div(self.phase_increment);
            return t.saturating_mul(t).saturating_add(two.saturating_mul(t)).saturating_add(one);
        }
        Fixed::from_int(0)
    }
}

impl Oscillator for PolyBlepOsc {
    open spec fn output(state: OscillatorState) -> Sample {
        bandlimited_sample(state.waveform, state.phase, state.increment)
    }

    fn set_frequency(&mut self, hz: Fixed) {
        self.phase_increment = hz.saturating_div(self.sample_rate);
    }

    fn set_phase(&mut self, phase: Fixed) {
        self.phase = phase.fract();
    }

    fn reset(&mut self) {
        self.phase = Fixed::from_int(0);
    }

    fn next_sample(&mut self) -> (sample: Sample) {
        self.phase = advance(self.phase, self.phase_increment);
        match self.waveform {
            Waveform::Saw => {
                let naive = saw(self.phase);
                Sample::Value(naive.saturating_sub(self.poly_blep(self.phase)))
            },
            Waveform::Square => {
                let naive = square(self.phase);
                let half = Fixed { bits: ONE / 2 };
                let shifted = self.phase.saturating_add(half).fract();
                Sample::Value(
                    naive.saturating_add(self.poly_blep(self.phase)).saturating_sub(
                        self.poly_blep(shifted),
                    ),
                )
            },
            _ => synthesize(self.waveform, self.phase),
        }
    }
}

} // verus!
