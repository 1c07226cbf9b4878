//! The six tonal elevation levels.
use vstd::prelude::*;

verus! {

/// A tonal elevation level, lowest first.
#[derive(Clone, Copy, Debug, PartialEq, Eq, Hash, Structural)]
pub enum ElevationLevel {
    L0,
    L1,
    L2,
    L3,
    L4,
    L5,
}

/// The rank of a level: 0 for `L0` up to 5 for `L5`.
pub open spec fn level_rank(l: ElevationLevel) -> int {
    match l {
        ElevationLevel::L0 => 0,
        ElevationLevel::L1 => 1,
        ElevationLevel::L2 => 2,
        ElevationLevel::L3 => 3,
        ElevationLevel::L4 => 4,
        ElevationLevel::L5 => 5,
    }
}

/// The height of a level in dp.
pub open spec fn level_dp(l: ElevationLevel) -> u32 {
    match l {
        ElevationLevel::L0 => 0,
        ElevationLevel::L1 => 1,
        ElevationLevel::L2 => 3,
        ElevationLevel::L3 => 6,
        ElevationLevel::L4 => 8,
        ElevationLevel::L5 => 12,
    }
}

impl ElevationLevel {
    /// The height of this level in whole dp.
    pub fn dp(self) -> (d: u32)
        ensures
            d == level_dp(self),
    {
        match self {
            Self::L0 => 0,
            Self::L1 => 1,
            Self::L2 => 3,
            Self::L3 => 6,
            Self::L4 => 8,
            Self::L5 => 12,
        }
    }
}

/// Law: a higher level always sits strictly higher.
pub proof fn lemma_elevation_strictly_increasing(a: ElevationLevel, b: ElevationLevel)
    requires
        level_rank(a) < level_rank(b),
    ensures
        level_dp(a) < level_dp(b),
{
}

} // verus!
