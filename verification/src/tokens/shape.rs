//! The corner-radius scale.
use vstd::prelude::*;

verus! {

/// A corner shape, from square to fully rounded.
#[derive(Clone, Copy, Debug, PartialEq, Eq, Hash, Structural)]
pub enum ShapeStyle {
    Square,
    ExtraSmall,
    Small,
    Medium,
    Large,
    LargeIncreased,
    ExtraLarge,
    ExtraLargeIncreased,
    ExtraExtraLarge,
    Full,
}

/// The rank of a shape on the scale, `Square` first.
pub open spec fn shape_rank(s: ShapeStyle) -> int {
    match s {
        ShapeStyle::Square => 0,
        ShapeStyle::ExtraSmall => 1,
        ShapeStyle::Small => 2,
        ShapeStyle::Medium => 3,
        ShapeStyle::Large => 4,
        ShapeStyle::LargeIncreased => 5,
        ShapeStyle::ExtraLarge => 6,
        ShapeStyle::ExtraLargeIncreased => 7,
        ShapeStyle::ExtraExtraLarge => 8,
        ShapeStyle::Full => 9,
    }
}

/// The corner radius in dp; `None` stands for a fully rounded corner, whose
/// radius is unbounded (half the shorter side of whatever it shapes).
pub open spec fn shape_radius(s: ShapeStyle) -> Option<u32> {
    match s {
        ShapeStyle::Square => Some(0),
        ShapeStyle::ExtraSmall => Some(4),
        ShapeStyle::Small => Some(8),
        ShapeStyle::Medium => Some(12),
        ShapeStyle::Large => Some(16),
        ShapeStyle::LargeIncreased => Some(20),
        ShapeStyle::ExtraLarge => Some(28),
        ShapeStyle::ExtraLargeIncreased => Some(32),
        ShapeStyle::ExtraExtraLarge => Some(48),
        ShapeStyle::Full => Option::None,
    }
}

impl ShapeStyle {
    /// The corner radius in dp, or `None` for the fully rounded shape.
    pub fn radius_dp(self) -> (r: Option<u32>)
        ensures
            r == shape_radius(self),
    {
        match self {
            Self::Square => Some(0),
            Self::ExtraSmall => Some(4),
            Self::Small => Some(8),
            Self::Medium => Some(12),
            Self::Large => Some(16),
            Self::LargeIncreased => Some(20),
            Self::ExtraLarge => Some(28),
            Self::ExtraLargeIncreased => Some(32),
            Self::ExtraExtraLarge => Some(48),
            Self::Full => Option::None,
        }
    }
}

/// Law: radii grow strictly along the scale, and only `Full` is unbounded.
pub proof fn lemma_radius_strictly_increasing(a: ShapeStyle, b: ShapeStyle)
    requires
        shape_rank(a) < shape_rank(b),
    ensures
        shape_radius(a) is Some,
        shape_radius(b) is None <==> b == ShapeStyle::Full,
        shape_radius(b) matches Some(rb) ==> shape_radius(a).unwrap() < rb,
{
}

} // verus!
