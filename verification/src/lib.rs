//! Per-sample generation of audio signals in exact fixed-point arithmetic.
//!
//! The [`Oscillator`] trait describes a source of periodic waveforms, with
//! implementations in [`naive`] and [`poly_blep`]; [`noise`] holds the
//! aperiodic generators. All numbers are [`fixed::Fixed`].
use vstd::prelude::*;

pub mod fixed;
pub mod phase;
pub mod naive;
pub mod poly_blep;
pub mod noise;

use crate::fixed::Fixed;
use crate::phase::OscillatorState;

verus! {

/// Standard waveform shapes for oscillators.
#[derive(Clone, Copy, PartialEq, Eq, Structural, Debug)]
pub enum Waveform {
    /// A pure sinusoidal wave.
    Sine,
    /// A sawtooth wave with a linear ramp up and instant reset.
    Saw,
    /// A square wave alternating between high and low values.
    Square,
    /// A triangle wave with linear slopes in both directions.
    Triangle,
}

/// One sample of an oscillator's output.
#[derive(Clone, Copy, PartialEq, Eq, Structural, Debug)]
pub enum Sample {
    /// An amplitude.
    Value(Fixed),
    /// The amplitude sin(2π·p) for the phase `p` held here, in cycles. A sine
    /// has no exact fixed-point value, so taking it is left to the consumer.
    SineOf(Fixed),
}

/// An audio oscillator that generates a periodic waveform sample by sample.
pub trait Oscillator: View<V = OscillatorState> + Sized {
    /// The sample that this kind of oscillator gives in a state.
    spec fn output(state: OscillatorState) -> Sample;

    /// Sets the oscillator frequency in hertz.
    fn set_frequency(&mut self, hz: Fixed)
        ensures
            final(self)@ == old(self)@.with_frequency(hz@),
    ;

    /// Sets the current phase of the oscillator to the fractional part of
    /// `phase`.
    fn set_phase(&mut self, phase: Fixed)
        ensures
            final(self)@ == old(self)@.with_phase(phase@),
    ;

    /// Puts the phase back to zero.
    fn reset(&mut self)
        ensures
            final(self)@ == old(self)@.rewound(),
    ;

    /// Advances the phase by one increment and returns the sample there.
    fn next_sample(&mut self) -> (sample: Sample)
        ensures
            final(self)@ == old(self)@.advanced(),
            sample == Self::output(final(self)@),
    ;

    /// Fills a buffer with consecutive samples.
    fn fill(&mut self, buffer: &mut [Sample])
        ensures
            final(buffer)@.len() == old(buffer)@.len(),
            final(self)@ == old(self)@.advanced_by(old(buffer)@.len()),
            forall|i: int|
                0 <= i < old(buffer)@.len() ==> #[trigger] final(buffer)@[i] == Self::output(
                    old(self)@.advanced_by((i + 1) as nat),
                ),
    {
        let n: usize = buffer.len();
        let mut i: usize = 0;
        while i < n
            invariant
                i <= n,
                buffer@.len() == n,
                self@ == old(self)@.advanced_by(i as nat),
                forall|j: int|
                    0 <= j < i ==> #[trigger] buffer@[j] == Self::output(
                        old(self)@.advanced_by((j + 1) as nat),
                    ),
            decreases n - i,
        {
            let sample = self.next_sample();
            buffer[i] = sample;
            i = i + 1;
        }
    }

    /// Generates the next `count` samples.
    fn take(&mut self, count: usize) -> (samples: Vec<Sample>)
        ensures
            samples@.len() == count,
            final(self)@ == old(self)@.advanced_by(count as nat),
            forall|i: int|
                0 <= i < count ==> #[trigger] samples@[i] == Self::output(
                    old(self)@.advanced_by((i + 1) as nat),
                ),
    {
        let mut samples: Vec<Sample> = Vec::new();
        let mut i: usize = 0;
        while i < count
            invariant
                i <= count,
                samples@.len() == i,
                self@ == old(self)@.advanced_by(i as nat),
                forall|j: int|
                    0 <= j < i ==> #[trigger] samples@[j] == Self::output(
                        old(self)@.advanced_by((j + 1) as nat),
                    ),
            decreases count - i,
        {
            let sample = self.next_sample();
            samples.push(sample);
            i = i + 1;
        }
        samples
    }
}

} // verus!
