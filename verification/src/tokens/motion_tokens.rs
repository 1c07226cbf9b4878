//! Motion tokens: duration classes, fixed durations and spring specs.
pub mod schemes;

use vstd::prelude::*;

verus! {

/// A duration class, shortest first.
#[derive(Clone, Copy, Debug, PartialEq, Eq, Hash, Structural)]
pub enum DurationClass {
    Short1,
    Short2,
    Short3,
    Short4,
    Medium1,
    Medium2,
    Medium3,
    Medium4,
    Long1,
    Long2,
    Long3,
    Long4,
    ExtraLong1,
    ExtraLong2,
    ExtraLong3,
    ExtraLong4,
}

/// The rank of a class: 0 for `Short1` up to 15 for `ExtraLong4`.
pub open spec fn duration_rank(d: DurationClass) -> int {
    match d {
        DurationClass::Short1 => 0,
        DurationClass::Short2 => 1,
        DurationClass::Short3 => 2,
        DurationClass::Short4 => 3,
        DurationClass::Medium1 => 4,
        DurationClass::Medium2 => 5,
        DurationClass::Medium3 => 6,
        DurationClass::Medium4 => 7,
        DurationClass::Long1 => 8,
        DurationClass::Long2 => 9,
        DurationClass::Long3 => 10,
        DurationClass::Long4 => 11,
        DurationClass::ExtraLong1 => 12,
        DurationClass::ExtraLong2 => 13,
        DurationClass::ExtraLong3 => 14,
        DurationClass::ExtraLong4 => 15,
    }
}

/// The length of a class in milliseconds.
pub open spec fn duration_ms(d: DurationClass) -> u16 {
    match d {
        DurationClass::Short1 => 50,
        DurationClass::Short2 => 100,
        DurationClass::Short3 => 150,
        DurationClass::Short4 => 200,
        DurationClass::Medium1 => 250,
        DurationClass::Medium2 => 300,
        DurationClass::Medium3 => 350,
        DurationClass::Medium4 => 400,
        DurationClass::Long1 => 450,
        DurationClass::Long2 => 500,
        DurationClass::Long3 => 550,
        DurationClass::Long4 => 600,
        DurationClass::ExtraLong1 => 700,
        DurationClass::ExtraLong2 => 800,
        DurationClass::ExtraLong3 => 900,
        DurationClass::ExtraLong4 => 1000,
    }
}

impl DurationClass {
    /// The length of this class in milliseconds.
    pub fn ms(self) -> (m: u16)
        ensures
            m == duration_ms(self),
    {
        match self {
            Self::Short1 => 50,
            Self::Short2 => 100,
            Self::Short3 => 150,
            Self::Short4 => 200,
            Self::Medium1 => 250,
            Self::Medium2 => 300,
            Self::Medium3 => 350,
            Self::Medium4 => 400,
            Self::Long1 => 450,
            Self::Long2 => 500,
            Self::Long3 => 550,
            Self::Long4 => 600,
            Self::ExtraLong1 => 700,
            Self::ExtraLong2 => 800,
            Self::ExtraLong3 => 900,
            Self::ExtraLong4 => 1000,
        }
    }
}

/// Law: a later duration class always lasts strictly longer.
pub proof fn lemma_duration_strictly_increasing(a: DurationClass, b: DurationClass)
    requires
        duration_rank(a) < duration_rank(b),
    ensures
        duration_ms(a) < duration_ms(b),
{
}

/// Law: the short, medium and long classes step by 50 ms from 50 ms, and the
/// extra-long classes step by 100 ms from 700 ms.
pub proof fn lemma_duration_steps(d: DurationClass)
    ensures
        duration_rank(d) < 12 ==> duration_ms(d) == 50 * (duration_rank(d) + 1),
        duration_rank(d) >= 12 ==> duration_ms(d) == 700 + 100 * (duration_rank(d) - 12),
        0 <= duration_rank(d) < 16,
{
}

/// Fixed durations, in milliseconds, of the emphasized and standard motion.
pub struct MotionDurationsMs;

impl MotionDurationsMs {
    pub const EMPHASIZED_ON_SCREEN: u16 = 500;
    pub const EMPHASIZED_ENTER: u16 = 400;
    pub const EMPHASIZED_EXIT: u16 = 200;
    pub const STANDARD: u16 = 300;
    pub const STANDARD_DECELERATE: u16 = 250;
    pub const STANDARD_ACCELERATE: u16 = 200;
}

/// A damped spring: the damping ratio in thousandths (1000 is critical
/// damping, below it the spring overshoots) and the stiffness in 1/s^2.
#[derive(Clone, Copy, Debug, PartialEq, Eq, Structural)]
pub struct SpringSpec {
    pub damping_ratio_milli: u32,
    pub stiffness: u32,
}

/// Critical damping, in thousandths of the damping ratio.
pub const CRITICAL_DAMPING_MILLI: u32 = 1000;

impl SpringSpec {
    /// A spring from its damping ratio (in thousandths) and stiffness.
    pub fn new(damping_ratio_milli: u32, stiffness: u32) -> (s: Self)
        ensures
            s.damping_ratio_milli == damping_ratio_milli,
            s.stiffness == stiffness,
    {
        Self { damping_ratio_milli, stiffness }
    }
}

} // verus!
