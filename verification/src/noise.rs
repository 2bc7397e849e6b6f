//! Noise generators for white, pink and brown noise.
//!
//! Noise is aperiodic: a generator has no frequency and no phase. Each sample
//! is made from one uniform draw in [0, 1), which is first spread to a white
//! sample in [-1, 1) and then, for pink and brown noise, passed through a
//! recursive filter whose taps the generator keeps between calls.
use crate::fixed::{
    difference, lemma_nearest, lemma_product_by_whole, nearest, product, ratio, sum, Fixed, ONE,
};
use vstd::prelude::*;

verus! {

const PINK_DECAY_0: i64 = 4290071033;

const PINK_DECAY_1: i64 = 4266276914;

const PINK_DECAY_2: i64 = 4161823310;

const PINK_DECAY_3: i64 = 3721589162;

const PINK_DECAY_4: i64 = 2362232013;

const PINK_DECAY_5: i64 = -3271047093;

const PINK_GAIN_0: i64 = 238447565;

const PINK_GAIN_1: i64 = 322448535;

const PINK_GAIN_2: i64 = 660789308;

const PINK_GAIN_3: i64 = 1333525498;

const PINK_GAIN_4: i64 = 2289012269;

const PINK_GAIN_5: i64 = 72576357;

const PINK_DIRECT: i64 = 2302961464;

const PINK_SCALE: i64 = 472446403;

const BROWN_STEP: i64 = 85899346;

const BROWN_LEAK: i64 = 4380866642;

const BROWN_SCALE: i64 = 15032385536;

/// The white sample made from a uniform draw `u`: 2u - 1.
pub open spec fn white_level(uniform: int) -> int {
    difference(product(uniform, 2 * ONE), ONE as int)
}

/// One pole of the pink filter: the tap decays by `decay` and takes in the
/// white sample with weight `gain`.
pub open spec fn pole(decay: int, tap: int, white: int, gain: int) -> int {
    sum(product(decay, tap), product(white, gain))
}

/// A uniform draw in [0, 1) is spread exactly onto [-1, 1).
pub proof fn lemma_white_in_range(uniform: int)
    requires
        0 <= uniform < ONE,
    ensures
        white_level(uniform) == 2 * uniform - ONE,
        -ONE <= white_level(uniform) < ONE,
{
    lemma_product_by_whole(2, uniform);
}

/// What a noise generator remembers between samples, in units of 2^-32.
pub enum NoiseState {
    /// White noise keeps nothing.
    White,
    /// The six taps of the pink filter.
    Pink { b0: int, b1: int, b2: int, b3: int, b4: int, b5: int },
    /// The previous output of the brown integrator.
    Brown { prev: int },
}

impl NoiseState {
    /// The state after a sample is made from the white sample `white`.
    ///
    /// Pink noise follows Paul Kellet's economy filter: every tap is a
    /// single-pole filter of the white noise, the sixth with the white term
    /// taken away. Brown noise is a leaky
    /// integrator, (prev + 0.02·white) / 1.02.
    pub open spec fn filtered(self, white: int) -> NoiseState {
        match self {
            NoiseState::White => NoiseState::White,
            NoiseState::Pink { b0, b1, b2, b3, b4, b5 } => NoiseState::Pink {
                b0: pole(nearest(99886, 100000), b0, white, nearest(555179, 10000000)),
                b1: pole(nearest(99332, 100000), b1, white, nearest(750759, 10000000)),
                b2: pole(nearest(96900, 100000), b2, white, nearest(1538520, 10000000)),
                b3: pole(nearest(86650, 100000), b3, white, nearest(3104856, 10000000)),
                b4: pole(nearest(55000, 100000), b4, white, nearest(5329522, 10000000)),
                b5: difference(
                    product(nearest(-7616, 10000), b5),
                    product(white, nearest(168980, 10000000)),
                ),
            },
            NoiseState::Brown { prev } => NoiseState::Brown {
                prev: ratio(sum(prev, product(nearest(2, 100), white)), nearest(102, 100)),
            },
        }
    }

    /// The sample that a generator gives on reaching this state with the
    /// white sample `white`.
    ///
    /// White noise is the white sample itself. Pink noise is the sum of the
    /// six taps and 0.5362 of the white sample, scaled by 0.11. Brown noise
    /// is the integrator's output scaled by 3.5.
    pub open spec fn level(self, white: int) -> int {
        match self {
            NoiseState::White => white,
            NoiseState::Pink { b0, b1, b2, b3, b4, b5 } => product(
                sum(
                    sum(sum(sum(sum(sum(b0, b1), b2), b3), b4), b5),
                    product(white, nearest(5362, 10000)),
                ),
                nearest(11, 100),
            ),
            NoiseState::Brown { prev } => product(prev, nearest(35, 10)),
        }
    }

    /// The state after a sample is made from the uniform draw `uniform`.
    pub open spec fn after(self, uniform: int) -> NoiseState {
        self.filtered(white_level(uniform))
    }

    /// The sample made from the uniform draw `uniform`.
    pub open spec fn sample(self, uniform: int) -> int {
        self.after(uniform).level(white_level(uniform))
    }
}

enum NoiseType {
    White,
    Pink { b0: Fixed, b1: Fixed, b2: Fixed, b3: Fixed, b4: Fixed, b5: Fixed },
    Brown { prev: Fixed },
}

/// A noise generator supporting white, pink, and brown noise.
pub struct NoiseGen {
    noise_type: NoiseType,
}

impl View for NoiseGen {
    type V = NoiseState;

    closed spec fn view(&self) -> NoiseState {
        match self.noise_type {
            NoiseType::White => NoiseState::White,
            NoiseType::Pink { b0, b1, b2, b3, b4, b5 } => NoiseState::Pink {
                b0: b0@,
                b1: b1@,
                b2: b2@,
                b3: b3@,
                b4: b4@,
                b5: b5@,
            },
            NoiseType::Brown { prev } => NoiseState::Brown { prev: prev@ },
        }
    }
}

/// Draws 32 random bits from `fastrand::u32` over its full range, which
/// reads and advances the generator of the calling thread. Nothing is
/// claimed of the bits drawn.
#[verifier::external_body]
fn random_bits() -> (bits: u32) {
    fastrand::u32(..)
}

/// The stored coefficients of the pink filter are its decimal constants,
/// each rounded to the nearest unit.
proof fn pink_coefficients()
    ensures
        PINK_DECAY_0 == nearest(99886, 100000),
        PINK_DECAY_1 == nearest(99332, 100000),
        PINK_DECAY_2 == nearest(96900, 100000),
        PINK_DECAY_3 == nearest(86650, 100000),
        PINK_DECAY_4 == nearest(55000, 100000),
        PINK_DECAY_5 == nearest(-7616, 10000),
        PINK_GAIN_0 == nearest(555179, 10000000),
        PINK_GAIN_1 == nearest(750759, 10000000),
        PINK_GAIN_2 == nearest(1538520, 10000000),
        PINK_GAIN_3 == nearest(3104856, 10000000),
        PINK_GAIN_4 == nearest(5329522, 10000000),
        PINK_GAIN_5 == nearest(168980, 10000000),
        PINK_DIRECT == nearest(5362, 10000),
        PINK_SCALE == nearest(11, 100),
{
    lemma_nearest(99886, 100000, PINK_DECAY_0 as int);
    lemma_nearest(99332, 100000, PINK_DECAY_1 as int);
    lemma_nearest(96900, 100000, PINK_DECAY_2 as int);
    lemma_nearest(86650, 100000, PINK_DECAY_3 as int);
    lemma_nearest(55000, 100000, PINK_DECAY_4 as int);
    lemma_nearest(-7616, 10000, PINK_DECAY_5 as int);
    lemma_nearest(555179, 10000000, PINK_GAIN_0 as int);
    lemma_nearest(750759, 10000000, PINK_GAIN_1 as int);
    lemma_nearest(1538520, 10000000, PINK_GAIN_2 as int);
    lemma_nearest(3104856, 10000000, PINK_GAIN_3 as int);
    lemma_nearest(5329522, 10000000, PINK_GAIN_4 as int);
    lemma_nearest(168980, 10000000, PINK_GAIN_5 as int);
    lemma_nearest(5362, 10000, PINK_DIRECT as int);
    lemma_nearest(11, 100, PINK_SCALE as int);
}

/// The stored coefficients of the brown integrator are its decimal
/// constants, each rounded to the nearest unit.
proof fn brown_coefficients()
    ensures
        BROWN_STEP == nearest(2, 100),
        BROWN_LEAK == nearest(102, 100),
        BROWN_SCALE == nearest(35, 10),
{
    lemma_nearest(2, 100, BROWN_STEP as int);
    lemma_nearest(102, 100, BROWN_LEAK as int);
    lemma_nearest(35, 10, BROWN_SCALE as int);
}

/// Updates one pole of the pink filter.
fn filter_pole(decay: i64, tap: Fixed, white: Fixed, gain: i64) -> (next: Fixed)
    ensures
        next@ == pole(decay as int, tap@, white@, gain as int),
{
    Fixed { bits: decay }.saturating_mul(tap).saturating_add(
        white.saturating_mul(Fixed { bits: gain }),
    )
}

impl NoiseGen {
    /// Creates a white noise generator.
    pub fn white() -> (noise: Self)
        ensures
            noise@ == NoiseState::White,
    {
        NoiseGen { noise_type: NoiseType::White }
    }

    /// Creates a pink noise generator using Paul Kellet's economy method,
    /// with all taps at zero.
    pub fn pink() -> (noise: Self)
        ensures
            noise@ == (NoiseState::Pink { b0: 0, b1: 0, b2: 0, b3: 0, b4: 0, b5: 0 }),
    {
        let zero = Fixed::from_int(0);
        NoiseGen {
            noise_type: NoiseType::Pink {
                b0: zero,
                b1: zero,
                b2: zero,
                b3: zero,
                b4: zero,
                b5: zero,
            },
        }
    }

    /// Creates a brown (Brownian) noise generator, with the integrator at
    /// zero.
    pub fn brown() -> (noise: Self)
        ensures
            noise@ == (NoiseState::Brown { prev: 0 }),
    {
        NoiseGen { noise_type: NoiseType::Brown { prev: Fixed::from_int(0) } }
    }

    /// Generates the next sample from a uniform draw in [0, 1) that the
    /// caller supplies.
    pub fn next_sample_with(&mut self, uniform: Fixed) -> (sample: Fixed)
        ensures
            final(self)@ == old(self)@.after(uniform@),
            sample@ == old(self)@.sample(uniform@),
    {
        let white = uniform.saturating_mul(Fixed::from_int(2)).saturating_sub(Fixed::from_int(1));
        match &mut self.noise_type {
            NoiseType::White => white,
            NoiseType::Pink { b0, b1, b2, b3, b4, b5 } => {
                proof {
                    pink_coefficients();
                }
                *b0 = filter_pole(PINK_DECAY_0, *b0, white, PINK_GAIN_0);
                *b1 = filter_pole(PINK_DECAY_1, *b1, white, PINK_GAIN_1);
                *b2 = filter_pole(PINK_DECAY_2, *b2, white, PINK_GAIN_2);
                *b3 = filter_pole(PINK_DECAY_3, *b3, white, PINK_GAIN_3);
                *b4 = filter_pole(PINK_DECAY_4, *b4, white, PINK_GAIN_4);
                *b5 = Fixed { bits: PINK_DECAY_5 }.saturating_mul(*b5).saturating_sub(
                    white.saturating_mul(Fixed { bits: PINK_GAIN_5 }),
                );
                let taps = b0.saturating_add(*b1).saturating_add(*b2).saturating_add(
                    *b3,
                ).saturating_add(*b4).saturating_add(*b5);
                taps.saturating_add(white.saturating_mul(Fixed { bits: PINK_DIRECT })).saturating_mul(
                    Fixed { bits: PINK_SCALE },
                )
            },
            NoiseType::Brown { prev } => {
                proof {
                    brown_coefficients();
                }
                *prev = prev.saturating_add(
                    Fixed { bits: BROWN_STEP }.saturating_mul(white),
                ).saturating_div(Fixed { bits: BROWN_LEAK });
                prev.saturating_mul(Fixed { bits: BROWN_SCALE })
            },
        }
    }

    /// Generates and returns the next sample, from a uniform draw of the
    /// thread's random number generator.
    pub fn next_sample(&mut self) -> (sample: Fixed)
        ensures
            exists|uniform: int|
                0 <= uniform < ONE && final(self)@ == #[trigger] old(self)@.after(uniform)
                    && sample@ == old(self)@.sample(uniform),
    {
        let bits: u32 = random_bits();
        let uniform = Fixed { bits: bits as i64 };
        let sample = self.next_sample_with(uniform);
        assert(self@ == old(self)@.after(uniform@));
        sample
    }
}

} // verus!
