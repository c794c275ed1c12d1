//! The number formats of the motion registers, and the conversion between
//! physical units and the chip's units.
//!
//! Positions are 32-bit numbers in two's complement, counted in microsteps.
//! The actual velocity is a 24-bit field whose bit 23 marks a negative value;
//! it is counted in the chip's velocity unit, microsteps per 2^24 clock
//! periods.
//!
//! The conversions work on whole numbers: speeds in full steps per second,
//! accelerations in full steps per second squared, positions in full steps.
//! Each result is the exact quotient rounded to the nearest whole number, a
//! half rounded away from zero. A result beyond the range of its register is
//! the nearest end of that range, and so is a quotient by zero, except that
//! zero by zero is zero.
//!
//! Rounding loses the fraction of a full step. Where nothing may be lost, a
//! position in microsteps is split into its whole full steps and the
//! microsteps that remain, and put together again from the two.

use vstd::prelude::*;
use crate::registers::bits::{field, get_field, get_flag, lemma_field_fits};

verus! {

/// The number that a register word stands for in two's complement.
pub open spec fn signed(word: u32) -> int {
    if word < 0x8000_0000 {
        word as int
    } else {
        word - 0x1_0000_0000
    }
}

/// The register word that stands for a number in two's complement.
pub open spec fn unsigned(value: i32) -> int {
    if value >= 0 {
        value as int
    } else {
        value + 0x1_0000_0000
    }
}

/// The velocity that the actual-velocity register holds, in the chip's unit.
///
/// With bit 23 clear the word is read as a 32-bit number in two's complement.
/// With bit 23 set the velocity is negative, and its size is 8388607 less the
/// lowest 23 bits of the word.
pub open spec fn velocity(raw: u32) -> int {
    if field(raw, 23, 1) == 1 {
        -(8388607 - field(raw, 0, 23))
    } else {
        signed(raw)
    }
}

/// Reads a register word as a number in two's complement.
pub fn to_signed(word: u32) -> (value: i32)
    ensures
        value == signed(word),
        unsigned(value) == word,
{
    let value: i32 = word as i32;
    assert(word as i32 == (if word < 0x8000_0000u32 {
        word as int
    } else {
        word - 0x1_0000_0000
    })) by (bit_vector);
    value
}

/// The register word of a number in two's complement.
pub fn from_signed(value: i32) -> (word: u32)
    ensures
        word == unsigned(value),
        signed(word) == value,
{
    let word: u32 = value as u32;
    assert(value as u32 == (if value >= 0i32 {
        value as int
    } else {
        value + 0x1_0000_0000
    })) by (bit_vector);
    word
}

/// Decodes the actual-velocity register into a velocity in the chip's unit.
pub fn decode_velocity(raw: u32) -> (ticks: i32)
    ensures
        ticks == velocity(raw),
{
    if get_flag(raw, 23) {
        let size: u32 = get_field(raw, 0, 23);
        proof {
            lemma_field_fits(raw, 0, 23);
            assert(field(raw, 0, 23) <= 0x7F_FFFF) by (bit_vector);
        }
        -(8388607 - size as i32)
    } else {
        to_signed(raw)
    }
}

/// The quotient `n / d` rounded to the nearest whole number, a half rounded
/// away from zero.
pub open spec fn nearest(n: int, d: int) -> int
    recommends
        d > 0,
{
    if n >= 0 {
        (2 * n + d) / (2 * d)
    } else {
        -((2 * (-n) + d) / (2 * d))
    }
}

/// The rounded quotient is no more than a half away from the exact quotient.
pub proof fn lemma_nearest(n: int, d: int)
    requires
        d > 0,
    ensures
        -d <= 2 * (nearest(n, d) * d - n) <= d,
        n >= 0 ==> nearest(n, d) >= 0,
        n <= 0 ==> nearest(n, d) <= 0,
{
    let m = if n >= 0 {
        n
    } else {
        -n
    };
    let q = (2 * m + d) / (2 * d);
    assert(0 <= (2 * m + d) - q * (2 * d) < 2 * d && q >= 0) by (nonlinear_arith)
        requires
            q == (2 * m + d) / (2 * d),
            d > 0,
            m >= 0,
    ;
    assert(q * (2 * d) == 2 * (q * d)) by (nonlinear_arith);
    assert((-q) * d == -(q * d)) by (nonlinear_arith);
    assert(m == 0 ==> q == 0) by (nonlinear_arith)
        requires
            q == (2 * m + d) / (2 * d),
            d > 0,
    ;
}

/// A whole multiple divided by its factor is the other factor, exactly.
pub proof fn lemma_nearest_of_multiple(x: int, d: int)
    requires
        d > 0,
    ensures
        nearest(x * d, d) == x,
{
    let m = if x >= 0 {
        x
    } else {
        -x
    };
    assert((2 * (m * d) + d) / (2 * d) == m) by (nonlinear_arith)
        requires
            d > 0,
            m >= 0,
    ;
    assert((-x) * d == -(x * d)) by (nonlinear_arith);
    assert(x >= 0 ==> x * d >= 0) by (nonlinear_arith)
        requires
            d > 0,
    ;
    assert(x < 0 ==> x * d < 0) by (nonlinear_arith)
        requires
            d > 0,
    ;
}

/// A value held within a range: the value itself where it lies between `low`
/// and `high`, else the nearer of the two.
pub open spec fn clamped(value: int, low: int, high: int) -> int {
    if value < low {
        low
    } else if value > high {
        high
    } else {
        value
    }
}

/// The quotient `n / d`, rounded to the nearest whole number and held within
/// the range from `low` to `high`. A quotient by zero counts as beyond the
/// range on the side of `n`, and as zero where `n` is zero.
pub open spec fn scaled(n: int, d: int, low: int, high: int) -> int {
    if d == 0 {
        if n > 0 {
            high
        } else if n < 0 {
            low
        } else {
            0
        }
    } else {
        clamped(nearest(n, d), low, high)
    }
}

/// Divides with rounding to the nearest whole number and holds the result
/// within a range around zero.
fn scale(negative: bool, size: u128, d: u128, low: i64, high: i64) -> (q: i64)
    requires
        low <= 0 <= high,
        2 * size + d <= u128::MAX,
        2 * d <= u128::MAX,
    ensures
        q == scaled(
            if negative {
                -(size as int)
            } else {
                size as int
            },
            d as int,
            low as int,
            high as int,
        ),
{
    if d == 0 {
        if size == 0 {
            0
        } else if negative {
            low
        } else {
            high
        }
    } else {
        let q: u128 = (2 * size + d) / (2 * d);
        proof {
            lemma_nearest(size as int, d as int);
        }
        if negative {
            if size == 0 {
                0
            } else if q > 0x7FFF_FFFF_FFFF_FFFF {
                low
            } else {
                let value: i64 = -(q as i64);
                if value < low {
                    low
                } else {
                    value
                }
            }
        } else if q > 0x7FFF_FFFF_FFFF_FFFF {
            high
        } else {
            let value: i64 = q as i64;
            if value > high {
                high
            } else {
                value
            }
        }
    }
}

/// The clock and the microstep resolution that the conversions go by.
#[derive(Clone, Copy, Debug, PartialEq, Eq, Structural)]
pub struct MotorContext {
    /// The chip's clock frequency in hertz.
    pub clock_hz: u32,
    /// The number of microsteps in one full step.
    pub microsteps: u32,
}

impl MotorContext {
    /// A clock of 12 MHz and 256 microsteps in a full step.
    pub open spec fn spec_new() -> Self {
        MotorContext { clock_hz: 12_000_000, microsteps: 256 }
    }

    /// The velocity register value for a speed in full steps per second:
    /// the speed times the microsteps times 2^24, divided by the clock.
    pub open spec fn spec_speed_to_ticks(&self, speed_hz: u32) -> u32 {
        scaled(speed_hz * self.microsteps * 0x100_0000, self.clock_hz as int, 0, u32::MAX as int) as u32
    }

    /// The acceleration register value for an acceleration in full steps per
    /// second squared: the acceleration times the microsteps times 2^41,
    /// divided by the square of the clock.
    pub open spec fn spec_accel_to_ticks(&self, accel_hz_per_s: u32) -> u32 {
        scaled(
            accel_hz_per_s * self.microsteps * 0x200_0000_0000,
            self.clock_hz * self.clock_hz,
            0,
            u32::MAX as int,
        ) as u32
    }

    /// The speed in full steps per second of a velocity in the chip's unit: the
    /// velocity times the clock, divided by 2^24 times the microsteps.
    pub open spec fn spec_ticks_to_speed(&self, ticks: i64) -> i64 {
        scaled(
            ticks * self.clock_hz,
            self.microsteps * 0x100_0000,
            i64::MIN as int,
            i64::MAX as int,
        ) as i64
    }

    /// The position in microsteps of a position in full steps.
    pub open spec fn spec_position_to_steps(&self, position: i32) -> i32 {
        clamped(position * self.microsteps, i32::MIN as int, i32::MAX as int) as i32
    }

    /// The position in full steps of a position in microsteps.
    pub open spec fn spec_steps_to_position(&self, steps: i32) -> i32 {
        scaled(steps as int, self.microsteps as int, i32::MIN as int, i32::MAX as int) as i32
    }

    /// The whole full steps in a position in microsteps, counted toward zero.
    /// Where a full step has no microsteps, no full step is counted.
    pub open spec fn whole_steps(self, steps: i32) -> int {
        if self.microsteps == 0 {
            0
        } else if steps >= 0 {
            steps as int / self.microsteps as int
        } else {
            -((-steps) / self.microsteps as int)
        }
    }

    /// The microsteps of a position that remain beyond its whole full steps;
    /// they have the sign of the position.
    pub open spec fn rest_steps(self, steps: i32) -> int {
        steps - self.whole_steps(steps) * self.microsteps
    }

    /// The position in microsteps of whole full steps and remaining microsteps,
    /// held within the range of the position registers.
    pub open spec fn spec_parts_to_steps(&self, whole: i32, rest: i32) -> i32 {
        clamped(whole * self.microsteps + rest, i32::MIN as int, i32::MAX as int) as i32
    }

    /// A position in microsteps is its whole full steps and the microsteps that
    /// remain: the two make up the position exactly, the rest is less than a
    /// full step, and both have the sign of the position. Where the rest is
    /// less than half a full step, the whole steps are the rounded position.
    pub proof fn lemma_parts(self, steps: i32)
        ensures
            self.whole_steps(steps) * self.microsteps + self.rest_steps(steps) == steps,
            self.microsteps > 0 ==> -self.microsteps < self.rest_steps(steps) < self.microsteps,
            steps >= 0 ==> 0 <= self.whole_steps(steps) <= steps && 0 <= self.rest_steps(steps)
                <= steps,
            steps <= 0 ==> steps <= self.whole_steps(steps) <= 0 && steps <= self.rest_steps(
                steps,
            ) <= 0,
            self.microsteps > 0 && -self.microsteps < 2 * self.rest_steps(steps)
                < self.microsteps ==> self.steps_to_position(steps) == self.whole_steps(steps),
    {
        let m = self.microsteps as int;
        if m > 0 {
            let size: int = if steps >= 0 {
                steps as int
            } else {
                -steps
            };
            let q = size / m;
            let r = size - q * m;
            assert(0 <= r < m && 0 <= q <= size && q * m <= size) by (nonlinear_arith)
                requires
                    q == size / m,
                    r == size - q * m,
                    m > 0,
                    size >= 0,
            ;
            assert((-q) * m == -(q * m)) by (nonlinear_arith);
            assert(2 * r < m ==> (2 * size + m) / (2 * m) == q) by (nonlinear_arith)
                requires
                    r == size - q * m,
                    0 <= r < m,
                    q >= 0,
            ;
        }
    }

    /// Splitting a position in microsteps into whole full steps and remaining
    /// microsteps and putting the two together again gives the position, for
    /// every position and every number of microsteps in a full step.
    pub proof fn lemma_parts_round_trip(self, steps: i32)
        ensures
            i32::MIN <= self.whole_steps(steps) <= i32::MAX,
            i32::MIN <= self.rest_steps(steps) <= i32::MAX,
            self.parts_to_steps(
                self.whole_steps(steps) as i32,
                self.rest_steps(steps) as i32,
            ) == steps,
    {
        self.lemma_parts(steps);
    }

    /// Converting a position to microsteps and back gives the position, as long
    /// as the position in microsteps fits its register.
    pub proof fn lemma_position_round_trip(self, position: i32)
        requires
            self.microsteps > 0,
            i32::MIN <= position * self.microsteps <= i32::MAX,
        ensures
            self.steps_to_position(self.position_to_steps(position)) == position,
    {
        lemma_nearest_of_multiple(position as int, self.microsteps as int);
    }

    /// A speed that fits the velocity register is converted without being cut,
    /// and the register value is no more than half a unit away from the exact
    /// quotient.
    pub proof fn lemma_speed_is_nearest(self, speed_hz: u32)
        requires
            self.clock_hz > 0,
            nearest(speed_hz * self.microsteps * 0x100_0000, self.clock_hz as int) <= u32::MAX,
        ensures
            -self.clock_hz <= 2 * (self.speed_to_ticks(speed_hz) * self.clock_hz - speed_hz
                * self.microsteps * 0x100_0000) <= self.clock_hz,
    {
        let n = speed_hz * self.microsteps * 0x100_0000;
        assert(n >= 0) by (nonlinear_arith)
            requires
                n == speed_hz * self.microsteps * 0x100_0000,
        ;
        lemma_nearest(n, self.clock_hz as int);
    }

    /// A clock of 12 MHz and 256 microsteps in a full step.
    #[verifier::when_used_as_spec(spec_new)]
    pub fn new() -> (context: Self)
        ensures
            context == Self::spec_new(),
    {
        MotorContext { clock_hz: 12_000_000, microsteps: 256 }
    }

    /// The context with another clock frequency, in hertz.
    pub fn clock(self, clock_hz: u32) -> (context: Self)
        ensures
            context == (MotorContext { clock_hz, ..self }),
    {
        MotorContext { clock_hz, microsteps: self.microsteps }
    }

    /// The context with another number of microsteps in a full step.
    pub fn step_count(self, microsteps: u32) -> (context: Self)
        ensures
            context == (MotorContext { microsteps, ..self }),
    {
        MotorContext { clock_hz: self.clock_hz, microsteps }
    }

    /// Converts a speed in full steps per second into the chip's velocity unit.
    #[verifier::when_used_as_spec(spec_speed_to_ticks)]
    pub fn speed_to_ticks(&self, speed_hz: u32) -> (ticks: u32)
        ensures
            ticks == self.spec_speed_to_ticks(speed_hz),
            ticks == scaled(
                speed_hz * self.microsteps * 0x100_0000,
                self.clock_hz as int,
                0,
                u32::MAX as int,
            ),
    {
        assert(0 <= speed_hz * self.microsteps <= 0xFFFF_FFFF * 0xFFFF_FFFF) by (nonlinear_arith)
            requires
                0 <= speed_hz <= 0xFFFF_FFFF,
                0 <= self.microsteps <= 0xFFFF_FFFF,
        ;
        let n: u128 = speed_hz as u128 * self.microsteps as u128 * 0x100_0000;
        scale(false, n, self.clock_hz as u128, 0, 0xFFFF_FFFF) as u32
    }

    /// Converts an acceleration in full steps per second squared into the chip's
    /// acceleration unit.
    #[verifier::when_used_as_spec(spec_accel_to_ticks)]
    pub fn accel_to_ticks(&self, accel_hz_per_s: u32) -> (ticks: u32)
        ensures
            ticks == self.spec_accel_to_ticks(accel_hz_per_s),
            ticks == scaled(
                accel_hz_per_s * self.microsteps * 0x200_0000_0000,
                self.clock_hz * self.clock_hz,
                0,
                u32::MAX as int,
            ),
    {
        assert(0 <= accel_hz_per_s * self.microsteps <= 0xFFFF_FFFF * 0xFFFF_FFFF)
            by (nonlinear_arith)
            requires
                0 <= accel_hz_per_s <= 0xFFFF_FFFF,
                0 <= self.microsteps <= 0xFFFF_FFFF,
        ;
        assert(0 <= self.clock_hz * self.clock_hz <= 0xFFFF_FFFF * 0xFFFF_FFFF)
            by (nonlinear_arith)
            requires
                0 <= self.clock_hz <= 0xFFFF_FFFF,
        ;
        let n: u128 = accel_hz_per_s as u128 * self.microsteps as u128 * 0x200_0000_0000;
        let d: u128 = self.clock_hz as u128 * self.clock_hz as u128;
        scale(false, n, d, 0, 0xFFFF_FFFF) as u32
    }

    /// Converts a velocity in the chip's unit into full steps per second.
    #[verifier::when_used_as_spec(spec_ticks_to_speed)]
    pub fn ticks_to_speed(&self, ticks: i64) -> (speed_hz: i64)
        ensures
            speed_hz == self.spec_ticks_to_speed(ticks),
            speed_hz == scaled(
                ticks * self.clock_hz,
                self.microsteps * 0x100_0000,
                i64::MIN as int,
                i64::MAX as int,
            ),
    {
        let negative = ticks < 0;
        let size: u128 = if negative {
            (-(ticks as i128)) as u128
        } else {
            ticks as u128
        };
        assert(0 <= size * self.clock_hz <= 0x8000_0000_0000_0000 * 0xFFFF_FFFF)
            by (nonlinear_arith)
            requires
                0 <= size <= 0x8000_0000_0000_0000,
                0 <= self.clock_hz <= 0xFFFF_FFFF,
        ;
        assert(negative ==> ticks * self.clock_hz == -(size * self.clock_hz)) by (nonlinear_arith)
            requires
                negative ==> size == -ticks,
        ;
        let n: u128 = size * self.clock_hz as u128;
        let d: u128 = self.microsteps as u128 * 0x100_0000;
        scale(negative, n, d, i64::MIN, i64::MAX)
    }

    /// Converts a position in full steps into microsteps.
    #[verifier::when_used_as_spec(spec_position_to_steps)]
    pub fn position_to_steps(&self, position: i32) -> (steps: i32)
        ensures
            steps == self.spec_position_to_steps(position),
            steps == clamped(position * self.microsteps, i32::MIN as int, i32::MAX as int),
    {
        assert(-0x8000_0000 * 0xFFFF_FFFF <= position * self.microsteps <= 0x8000_0000
            * 0xFFFF_FFFF) by (nonlinear_arith)
            requires
                -0x8000_0000 <= position <= 0x7FFF_FFFF,
                0 <= self.microsteps <= 0xFFFF_FFFF,
        ;
        let product: i128 = position as i128 * self.microsteps as i128;
        if product < -0x8000_0000 {
            -0x8000_0000
        } else if product > 0x7FFF_FFFF {
            0x7FFF_FFFF
        } else {
            product as i32
        }
    }

    /// Splits a position in microsteps into its whole full steps and the
    /// microsteps that remain. Nothing is lost: the whole steps times the
    /// microsteps in a full step, plus the rest, is the position.
    pub fn steps_to_parts(&self, steps: i32) -> (parts: (i32, i32))
        ensures
            parts.0 == self.whole_steps(steps),
            parts.1 == self.rest_steps(steps),
            parts.0 * self.microsteps + parts.1 == steps,
    {
        proof {
            self.lemma_parts(steps);
        }
        if self.microsteps == 0 {
            return (0, steps);
        }
        let negative = steps < 0;
        let size: u64 = if negative {
            (-(steps as i64)) as u64
        } else {
            steps as u64
        };
        let m: u64 = self.microsteps as u64;
        let q: u64 = size / m;
        let r: u64 = size % m;
        assert(r == size - q * m && q <= size && r <= size) by (nonlinear_arith)
            requires
                q == size / m,
                r == size % m,
                m > 0,
        ;
        assert((-(q as int)) * m == -(q * m)) by (nonlinear_arith);
        if negative {
            ((-(q as i64)) as i32, (-(r as i64)) as i32)
        } else {
            (q as i32, r as i32)
        }
    }

    /// Puts a position in microsteps together from whole full steps and
    /// remaining microsteps.
    #[verifier::when_used_as_spec(spec_parts_to_steps)]
    pub fn parts_to_steps(&self, whole: i32, rest: i32) -> (steps: i32)
        ensures
            steps == self.spec_parts_to_steps(whole, rest),
            steps == clamped(whole * self.microsteps + rest, i32::MIN as int, i32::MAX as int),
    {
        assert(-0x8000_0000 * 0xFFFF_FFFF <= whole * self.microsteps <= 0x8000_0000
            * 0xFFFF_FFFF) by (nonlinear_arith)
            requires
                -0x8000_0000 <= whole <= 0x7FFF_FFFF,
                0 <= self.microsteps <= 0xFFFF_FFFF,
        ;
        let sum: i128 = whole as i128 * self.microsteps as i128 + rest as i128;
        if sum < -0x8000_0000 {
            -0x8000_0000
        } else if sum > 0x7FFF_FFFF {
            0x7FFF_FFFF
        } else {
            sum as i32
        }
    }

    /// Converts a position in microsteps into full steps.
    #[verifier::when_used_as_spec(spec_steps_to_position)]
    pub fn steps_to_position(&self, steps: i32) -> (position: i32)
        ensures
            position == self.spec_steps_to_position(steps),
            position == scaled(
                steps as int,
                self.microsteps as int,
                i32::MIN as int,
                i32::MAX as int,
            ),
    {
        let negative = steps < 0;
        let size: u128 = if negative {
            (-(steps as i64)) as u128
        } else {
            steps as u128
        };
        scale(negative, size, self.microsteps as u128, -0x8000_0000, 0x7FFF_FFFF) as i32
    }
}

} // verus!
