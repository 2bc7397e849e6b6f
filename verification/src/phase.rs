//! The phase accumulator that every oscillator shares.
//!
//! An oscillator keeps a phase, a per-sample phase increment, the sample rate
//! it was made for and its waveform. [`OscillatorState`] is the mathematical
//! picture of that record, with each number as its count of units of 2^-32,
//! and its methods say what each oscillator operation does to it.
use crate::fixed::{fraction, ratio, sum, Fixed, ONE};
use crate::{Oscillator, Waveform};
use vstd::prelude::*;

verus! {

/// A phase brought back by one whole cycle where it has reached one. Only a
/// single cycle is taken away, so the result lies below one only for phases
/// below two.
pub open spec fn wrapped(phase: int) -> int {
    if phase >= ONE {
        phase - ONE
    } else {
        phase
    }
}

/// The state of an oscillator, in units of 2^-32.
pub struct OscillatorState {
    /// Position within the cycle, in cycles.
    pub phase: int,
    /// Phase gained per sample, in cycles: frequency over sample rate.
    pub increment: int,
    /// Samples per second.
    pub sample_rate: int,
    /// The shape that is generated.
    pub waveform: Waveform,
}

impl OscillatorState {
    /// The state of a newly made oscillator: at phase zero, with the
    /// increment that `frequency` has at `sample_rate`.
    pub open spec fn fresh(sample_rate: int, frequency: int, waveform: Waveform) -> Self {
        OscillatorState { phase: 0, increment: ratio(frequency, sample_rate), sample_rate, waveform }
    }

    /// The state once the frequency is set to `hz`.
    pub open spec fn with_frequency(self, hz: int) -> Self {
        OscillatorState { increment: ratio(hz, self.sample_rate), ..self }
    }

    /// The state once the phase is set to the fractional part of `phase`.
    pub open spec fn with_phase(self, phase: int) -> Self {
        OscillatorState { phase: fraction(phase), ..self }
    }

    /// The state once the phase is put back to zero.
    pub open spec fn rewound(self) -> Self {
        OscillatorState { phase: 0, ..self }
    }

    /// The state one sample later.
    pub open spec fn advanced(self) -> Self {
        OscillatorState { phase: wrapped(sum(self.phase, self.increment)), ..self }
    }

    /// The state `n` samples later.
    pub open spec fn advanced_by(self, n: nat) -> Self
        decreases n,
    {
        if n == 0 {
            self
        } else {
            self.advanced_by((n - 1) as nat).advanced()
        }
    }

    /// Whether the state is within the bounds an oscillator is meant to run
    /// in: the phase in [0, 1) and the increment in [0, 1].
    pub open spec fn in_cycle(self) -> bool {
        &&& 0 <= self.phase < ONE
        &&& 0 <= self.increment <= ONE
    }
}

/// Advancing changes nothing but the phase.
pub proof fn lemma_advancing_keeps_settings(state: OscillatorState, n: nat)
    ensures
        state.advanced_by(n).increment == state.increment,
        state.advanced_by(n).sample_rate == state.sample_rate,
        state.advanced_by(n).waveform == state.waveform,
    decreases n,
{
    if n > 0 {
        lemma_advancing_keeps_settings(state, (n - 1) as nat);
    }
}

/// Advancing `m + n` samples is advancing `m` samples and then `n` more.
pub proof fn lemma_advancing_adds_up(state: OscillatorState, m: nat, n: nat)
    ensures
        state.advanced_by(m + n) == state.advanced_by(m).advanced_by(n),
    decreases n,
{
    if n > 0 {
        lemma_advancing_adds_up(state, m, (n - 1) as nat);
        assert(state.advanced_by(m + n) == state.advanced_by((m + n - 1) as nat).advanced());
    }
}

/// The phase stays in [0, 1): an oscillator whose phase is in [0, 1) and
/// whose increment is in [0, 1] has its phase in [0, 1) after every sample.
pub proof fn lemma_phase_stays_in_cycle(state: OscillatorState, n: nat)
    requires
        state.in_cycle(),
    ensures
        state.advanced_by(n).in_cycle(),
    decreases n,
{
    if n > 0 {
        lemma_phase_stays_in_cycle(state, (n - 1) as nat);
    }
}

/// Within those bounds the single subtraction is a true wraparound: after
/// `n` samples the phase is the sum of the starting phase and `n` increments,
/// taken modulo one.
pub proof fn lemma_phase_is_modular(state: OscillatorState, n: nat)
    requires
        state.in_cycle(),
    ensures
        state.advanced_by(n).phase == (state.phase + n * state.increment) % (ONE as int),
    decreases n,
{
    if n > 0 {
        let before = (n - 1) as nat;
        lemma_phase_is_modular(state, before);
        lemma_phase_stays_in_cycle(state, before);
        lemma_advancing_keeps_settings(state, before);
        assert(n * state.increment == before * state.increment + state.increment)
            by (nonlinear_arith)
            requires
                n == before + 1,
        ;
    } else {
        assert(n * state.increment == 0) by (nonlinear_arith)
            requires
                n == 0,
        ;
    }
}

/// Periodicity: when `n` increments make exactly one cycle, an oscillator
/// that runs within its bounds is after `n` samples in the state it started
/// in, so from there on it repeats the samples it gave from the start.
pub proof fn lemma_full_cycle_repeats<O: Oscillator>(state: OscillatorState, n: nat, k: nat)
    requires
        state.in_cycle(),
        n * state.increment == ONE,
    ensures
        state.advanced_by(n) == state,
        state.advanced_by(n + k) == state.advanced_by(k),
        O::output(state.advanced_by(n + k)) == O::output(state.advanced_by(k)),
{
    lemma_phase_is_modular(state, n);
    lemma_advancing_keeps_settings(state, n);
    lemma_advancing_adds_up(state, n, k);
}

/// Resetting puts an oscillator in the state of a newly made one of its
/// frequency, so the next sample of the one is the first sample of the
/// other.
pub proof fn lemma_reset_is_fresh<O: Oscillator>(state: OscillatorState, frequency: int)
    requires
        state.increment == ratio(frequency, state.sample_rate),
    ensures
        state.rewound() == OscillatorState::fresh(state.sample_rate, frequency, state.waveform),
        O::output(state.rewound().advanced()) == O::output(
            OscillatorState::fresh(state.sample_rate, frequency, state.waveform).advanced(),
        ),
{
}

/// Setting the phase to `phase` puts an oscillator where a newly made one of
/// its frequency is once its phase has come to the fractional part of
/// `phase`. The next sample of both is the one at that fractional part moved
/// on by one increment and wrapped.
pub proof fn lemma_set_phase_is_fresh_at<O: Oscillator>(
    state: OscillatorState,
    frequency: int,
    phase: int,
)
    requires
        state.increment == ratio(frequency, state.sample_rate),
    ensures
        state.with_phase(phase) == (OscillatorState {
            phase: fraction(phase),
            ..OscillatorState::fresh(state.sample_rate, frequency, state.waveform)
        }),
        O::output(state.with_phase(phase).advanced()) == O::output(
            OscillatorState {
                phase: wrapped(sum(fraction(phase), ratio(frequency, state.sample_rate))),
                ..OscillatorState::fresh(state.sample_rate, frequency, state.waveform)
            },
        ),
{
}

/// Setting the frequency that an oscillator already has changes nothing:
/// not its state, whether set at once or after any number of samples, and so
/// none of the samples that follow. Setting a frequency twice is setting it
/// once.
pub proof fn lemma_set_frequency_idempotent<O: Oscillator>(
    state: OscillatorState,
    hz: int,
    n: nat,
)
    requires
        state.increment == ratio(hz, state.sample_rate),
    ensures
        state.with_frequency(hz) == state,
        state.advanced_by(n).with_frequency(hz) == state.advanced_by(n),
        O::output(state.with_frequency(hz).advanced_by(n)) == O::output(state.advanced_by(n)),
        state.with_frequency(hz).with_frequency(hz) == state.with_frequency(hz),
{
    lemma_advancing_keeps_settings(state, n);
}

/// Moves `phase` on by `increment` and wraps it once.
pub fn advance(phase: Fixed, increment: Fixed) -> (next: Fixed)
    ensures
        next@ == wrapped(sum(phase@, increment@)),
{
    let moved = phase.saturating_add(increment);
    if moved.ge(Fixed::from_int(1)) {
        moved.saturating_sub(Fixed::from_int(1))
    } else {
        moved
    }
}

} // verus!
