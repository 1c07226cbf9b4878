//! The spring tokens of the expressive and standard motion schemes, plus
//! the two general-purpose springs.
use super::SpringSpec;
use vstd::prelude::*;

verus! {

/// The `expressive fast spatial` spring: damping ratio 0.6, stiffness 800.
pub fn expressive_fast_spatial() -> (s: SpringSpec)
    ensures
        s == (SpringSpec { damping_ratio_milli: 600, stiffness: 800 }),
{
    SpringSpec { damping_ratio_milli: 600, stiffness: 800 }
}

/// The `expressive default spatial` spring: damping ratio 0.8, stiffness 380.
pub fn expressive_default_spatial() -> (s: SpringSpec)
    ensures
        s == (SpringSpec { damping_ratio_milli: 800, stiffness: 380 }),
{
    SpringSpec { damping_ratio_milli: 800, stiffness: 380 }
}

/// The `expressive slow spatial` spring: damping ratio 0.8, stiffness 200.
pub fn expressive_slow_spatial() -> (s: SpringSpec)
    ensures
        s == (SpringSpec { damping_ratio_milli: 800, stiffness: 200 }),
{
    SpringSpec { damping_ratio_milli: 800, stiffness: 200 }
}

/// The `expressive fast effects` spring: damping ratio 1.0, stiffness 3800.
pub fn expressive_fast_effects() -> (s: SpringSpec)
    ensures
        s == (SpringSpec { damping_ratio_milli: 1000, stiffness: 3800 }),
{
    SpringSpec { damping_ratio_milli: 1000, stiffness: 3800 }
}

/// The `expressive default effects` spring: damping ratio 1.0, stiffness 1600.
pub fn expressive_default_effects() -> (s: SpringSpec)
    ensures
        s == (SpringSpec { damping_ratio_milli: 1000, stiffness: 1600 }),
{
    SpringSpec { damping_ratio_milli: 1000, stiffness: 1600 }
}

/// The `expressive slow effects` spring: damping ratio 1.0, stiffness 800.
pub fn expressive_slow_effects() -> (s: SpringSpec)
    ensures
        s == (SpringSpec { damping_ratio_milli: 1000, stiffness: 800 }),
{
    SpringSpec { damping_ratio_milli: 1000, stiffness: 800 }
}

/// The `standard fast spatial` spring: damping ratio 0.9, stiffness 1400.
pub fn standard_fast_spatial() -> (s: SpringSpec)
    ensures
        s == (SpringSpec { damping_ratio_milli: 900, stiffness: 1400 }),
{
    SpringSpec { damping_ratio_milli: 900, stiffness: 1400 }
}

/// The `standard default spatial` spring: damping ratio 0.9, stiffness 700.
pub fn standard_default_spatial() -> (s: SpringSpec)
    ensures
        s == (SpringSpec { damping_ratio_milli: 900, stiffness: 700 }),
{
    SpringSpec { damping_ratio_milli: 900, stiffness: 700 }
}

/// The `standard slow spatial` spring: damping ratio 0.9, stiffness 300.
pub fn standard_slow_spatial() -> (s: SpringSpec)
    ensures
        s == (SpringSpec { damping_ratio_milli: 900, stiffness: 300 }),
{
    SpringSpec { damping_ratio_milli: 900, stiffness: 300 }
}

/// The `standard fast effects` spring: damping ratio 1.0, stiffness 3800.
pub fn standard_fast_effects() -> (s: SpringSpec)
    ensures
        s == (SpringSpec { damping_ratio_milli: 1000, stiffness: 3800 }),
{
    SpringSpec { damping_ratio_milli: 1000, stiffness: 3800 }
}

/// The `standard default effects` spring: damping ratio 1.0, stiffness 1600.
pub fn standard_default_effects() -> (s: SpringSpec)
    ensures
        s == (SpringSpec { damping_ratio_milli: 1000, stiffness: 1600 }),
{
    SpringSpec { damping_ratio_milli: 1000, stiffness: 1600 }
}

/// The `standard slow effects` spring: damping ratio 1.0, stiffness 800.
pub fn standard_slow_effects() -> (s: SpringSpec)
    ensures
        s == (SpringSpec { damping_ratio_milli: 1000, stiffness: 800 }),
{
    SpringSpec { damping_ratio_milli: 1000, stiffness: 800 }
}

/// The `spring default` spring: damping ratio 1.0, stiffness 1500.
pub fn spring_default() -> (s: SpringSpec)
    ensures
        s == (SpringSpec { damping_ratio_milli: 1000, stiffness: 1500 }),
{
    SpringSpec { damping_ratio_milli: 1000, stiffness: 1500 }
}

/// The `spring enter exit` spring: damping ratio 1.0, stiffness 400.
pub fn spring_enter_exit() -> (s: SpringSpec)
    ensures
        s == (SpringSpec { damping_ratio_milli: 1000, stiffness: 400 }),
{
    SpringSpec { damping_ratio_milli: 1000, stiffness: 400 }
}

} // verus!
