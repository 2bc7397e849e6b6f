//! Oscillators that evaluate each waveform's closed form directly.
use crate::fixed::{difference, lemma_product_by_whole, product, sum, Fixed, ONE};
use crate::phase::{advance, OscillatorState};
use crate::{Oscillator, Sample, Waveform};
use vstd::prelude::*;

verus! {

/// The sawtooth at `phase`: 2p - 1.
pub open spec fn saw_level(phase: int) -> int {
    difference(product(2 * ONE, phase), ONE as int)
}

/// The square wave at `phase`: 1 in the first half of the cycle, -1 after.
pub open spec fn square_level(phase: int) -> int {
    if phase < ONE / 2 {
        ONE as int
    } else {
        -ONE
    }
}

/// The triangle at `phase`: 4p - 1 in the first half of the cycle, -4p + 3
/// after.
pub open spec fn triangle_level(phase: int) -> int {
    if phase < ONE / 2 {
        difference(product(4 * ONE, phase), ONE as int)
    } else {
        sum(product(-4 * ONE, phase), 3 * ONE)
    }
}

/// The sample of `waveform` at `phase`, without any correction.
pub open spec fn naive_sample(waveform: Waveform, phase: int) -> Sample {
    match waveform {
        Waveform::Sine => Sample::SineOf(Fixed { bits: phase as i64 }),
        Waveform::Saw => Sample::Value(Fixed { bits: saw_level(phase) as i64 }),
        Waveform::Square => Sample::Value(Fixed { bits: square_level(phase) as i64 }),
        Waveform::Triangle => Sample::Value(Fixed { bits: triangle_level(phase) as i64 }),
    }
}

/// Within a cycle the uncorrected sawtooth, square and triangle are exact
/// and stay within [-1, 1]: for a phase in [0, 1) the sawtooth is 2p - 1, the
/// square is 1 or -1, and the triangle is 4p - 1 or 3 - 4p.
pub proof fn lemma_naive_levels_in_range(phase: int)
    requires
        0 <= phase < ONE,
    ensures
        saw_level(phase) == 2 * phase - ONE,
        -ONE <= saw_level(phase) < ONE,
        square_level(phase) == ONE || square_level(phase) == -ONE,
        triangle_level(phase) == if phase < ONE / 2 {
            4 * phase - ONE
        } else {
            3 * ONE - 4 * phase
        },
        -ONE <= triangle_level(phase) <= ONE,
{
    lemma_product_by_whole(2, phase);
    lemma_product_by_whole(4, phase);
    lemma_product_by_whole(-4, phase);
}

/// Every uncorrected sample within a cycle that is an amplitude lies within
/// [-1, 1]; only the sine, whose amplitude is not evaluated here, is given
/// as a phase.
pub proof fn lemma_naive_sample_in_range(waveform: Waveform, phase: int)
    requires
        0 <= phase < ONE,
    ensures
        match naive_sample(waveform, phase) {
            Sample::Value(level) => -ONE <= level@ <= ONE,
            Sample::SineOf(at) => waveform == Waveform::Sine && at@ == phase,
        },
{
    lemma_naive_levels_in_range(phase);
}

/// Evaluates the sawtooth at `phase`.
pub fn saw(phase: Fixed) -> (level: Fixed)
    ensures
        level@ == saw_level(phase@),
{
    Fixed::from_int(2).saturating_mul(phase).saturating_sub(Fixed::from_int(1))
}

/// Evaluates the square wave at `phase`.
pub fn square(phase: Fixed) -> (level: Fixed)
    ensures
        level@ == square_level(phase@),
{
    if phase.lt(Fixed { bits: ONE / 2 }) {
        Fixed::from_int(1)
    } else {
        Fixed::from_int(-1)
    }
}

/// Evaluates the triangle at `phase`.
pub fn triangle(phase: Fixed) -> (level: Fixed)
    ensures
        level@ == triangle_level(phase@),
{
    if phase.lt(Fixed { bits: ONE / 2 }) {
        Fixed::from_int(4).saturating_mul(phase).saturating_sub(Fixed::from_int(1))
    } else {
        Fixed::from_int(-4).saturating_mul(phase).saturating_add(Fixed::from_int(3))
    }
}

/// Maps a phase to the uncorrected sample of `waveform` there.
pub fn synthesize(waveform: Waveform, phase: Fixed) -> (sample: Sample)
    ensures
        sample == naive_sample(waveform, phase@),
{
    match waveform {
        Waveform::Sine => Sample::SineOf(phase),
        Waveform::Saw => Sample::Value(saw(phase)),
        Waveform::Square => Sample::Value(square(phase)),
        Waveform::Triangle => Sample::Value(triangle(phase)),
    }
}

/// A naive oscillator with no anti-aliasing.
pub struct NaiveOsc {
    phase: Fixed,
    phase_increment: Fixed,
    sample_rate: Fixed,
    waveform: Waveform,
}

impl View for NaiveOsc {
    type V = OscillatorState;

    closed spec fn view(&self) -> OscillatorState {
        OscillatorState {
            phase: self.phase@,
            increment: self.phase_increment@,
            sample_rate: self.sample_rate@,
            waveform: self.waveform,
        }
    }
}

impl NaiveOsc {
    /// Creates a new naive oscillator.
    pub fn new(sample_rate: Fixed, frequency: Fixed, waveform: Waveform) -> (osc: Self)
        ensures
            osc@ == OscillatorState::fresh(sample_rate@, frequency@, waveform),
    {
        NaiveOsc {
            phase: Fixed::from_int(0),
            phase_increment: frequency.saturating_div(sample_rate),
            sample_rate,
            waveform,
        }
    }
}

impl Oscillator for NaiveOsc {
    open spec fn output(state: OscillatorState) -> Sample {
        naive_sample(state.waveform, state.phase)
    }

    fn set_frequency(&mut self, hz: Fixed) {
        self.phase_increment = hz.saturating_div(self.sample_rate);
    }

    fn set_phase(&mut self, phase: Fixed) {
        self.phase = phase.fract();
    }

    fn reset(&mut self) {
        self.phase = Fixed::from_int(0);
    }

    fn next_sample(&mut self) -> (sample: Sample) {
        self.phase = advance(self.phase, self.phase_increment);
        synthesize(self.waveform, self.phase)
    }
}

} // verus!
