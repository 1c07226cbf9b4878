//! The type scale: fifteen roles, each with size, line height, weight and
//! tracking, and an emphasized variant.
use vstd::prelude::*;

verus! {

/// A role on the type scale.
#[derive(Clone, Copy, Debug, PartialEq, Eq, Hash, Structural)]
pub enum TypeRole {
    DisplayL,
    DisplayM,
    DisplayS,
    HeadlineL,
    HeadlineM,
    HeadlineS,
    TitleL,
    TitleM,
    TitleS,
    BodyL,
    BodyM,
    BodyS,
    LabelL,
    LabelM,
    LabelS,
}

/// A type style: size and line height in sp, font weight, tracking in
/// hundredths of an em, and whether the emphasized variant was taken.
#[derive(Clone, Copy, Debug, PartialEq, Eq, Structural)]
pub struct TypeStyle {
    pub size_sp: u16,
    pub line_height_sp: u16,
    pub weight: u16,
    pub tracking_centi_em: i16,
    pub emphasized: bool,
}

/// The heaviest weight that emphasis raises a style to.
pub const MAX_EMPHASIZED_WEIGHT: u16 = 700;

/// The weight of the emphasized variant of a style of weight `w`: one step
/// (100) heavier, but never above 700.
pub open spec fn emphasized_weight(w: u16) -> u16 {
    if w + 100 > 700 { 700 } else { (w + 100) as u16 }
}

/// The plain (not emphasized) style of a role.
pub open spec fn role_style(role: TypeRole) -> TypeStyle {
    let (size, line, weight, tracking): (u16, u16, u16, i16) = match role {
        TypeRole::DisplayL => (57, 64, 400, -25i16),
        TypeRole::DisplayM => (45, 52, 400, 0),
        TypeRole::DisplayS => (36, 44, 400, 0),
        TypeRole::HeadlineL => (32, 40, 400, 0),
        TypeRole::HeadlineM => (28, 36, 400, 0),
        TypeRole::HeadlineS => (24, 32, 400, 0),
        TypeRole::TitleL => (22, 28, 400, 0),
        TypeRole::TitleM => (16, 24, 500, 15),
        TypeRole::TitleS => (14, 20, 500, 10),
        TypeRole::BodyL => (16, 24, 400, 50),
        TypeRole::BodyM => (14, 20, 400, 25),
        TypeRole::BodyS => (12, 16, 400, 40),
        TypeRole::LabelL => (14, 20, 500, 10),
        TypeRole::LabelM => (12, 16, 500, 50),
        TypeRole::LabelS => (11, 16, 500, 50),
    };
    TypeStyle { size_sp: size, line_height_sp: line, weight, tracking_centi_em: tracking, emphasized: false }
}

/// The style of a role, emphasized or not.
pub open spec fn styled(role: TypeRole, emphasized: bool) -> TypeStyle {
    let base = role_style(role);
    if emphasized {
        TypeStyle { weight: emphasized_weight(base.weight), emphasized: true, ..base }
    } else {
        base
    }
}

impl TypeStyle {
    /// A plain style from its size, line height, weight and tracking.
    pub fn of(size_sp: u16, line_height_sp: u16, weight: u16, tracking_centi_em: i16) -> (s: Self)
        ensures
            s == (TypeStyle { size_sp, line_height_sp, weight, tracking_centi_em, emphasized: false }),
    {
        Self { size_sp, line_height_sp, weight, tracking_centi_em, emphasized: false }
    }

    /// The emphasized variant: one weight step heavier (capped at 700),
    /// marked emphasized, everything else unchanged.
    pub fn emphasized(self) -> (s: Self)
        requires
            self.weight + 100 <= u16::MAX,
        ensures
            s == (TypeStyle { weight: emphasized_weight(self.weight), emphasized: true, ..self }),
    {
        let w = if self.weight + 100 > MAX_EMPHASIZED_WEIGHT {
            MAX_EMPHASIZED_WEIGHT
        } else {
            self.weight + 100
        };
        Self { weight: w, emphasized: true, ..self }
    }
}

/// The style of `role`, taking the emphasized variant when asked.
pub fn style(role: TypeRole, emphasized: bool) -> (s: TypeStyle)
    ensures
        s == styled(role, emphasized),
{
    let base = match role {
        TypeRole::DisplayL => TypeStyle::of(57, 64, 400, -25),
        TypeRole::DisplayM => TypeStyle::of(45, 52, 400, 0),
        TypeRole::DisplayS => TypeStyle::of(36, 44, 400, 0),
        TypeRole::HeadlineL => TypeStyle::of(32, 40, 400, 0),
        TypeRole::HeadlineM => TypeStyle::of(28, 36, 400, 0),
        TypeRole::HeadlineS => TypeStyle::of(24, 32, 400, 0),
        TypeRole::TitleL => TypeStyle::of(22, 28, 400, 0),
        TypeRole::TitleM => TypeStyle::of(16, 24, 500, 15),
        TypeRole::TitleS => TypeStyle::of(14, 20, 500, 10),
        TypeRole::BodyL => TypeStyle::of(16, 24, 400, 50),
        TypeRole::BodyM => TypeStyle::of(14, 20, 400, 25),
        TypeRole::BodyS => TypeStyle::of(12, 16, 400, 40),
        TypeRole::LabelL => TypeStyle::of(14, 20, 500, 10),
        TypeRole::LabelM => TypeStyle::of(12, 16, 500, 50),
        TypeRole::LabelS => TypeStyle::of(11, 16, 500, 50),
    };
    if emphasized {
        base.emphasized()
    } else {
        base
    }
}

/// Law: emphasis never makes a style of weight at most 700 lighter, and
/// never takes any style above 700 unless it already was.
pub proof fn lemma_emphasis_never_lightens(w: u16)
    requires
        w <= MAX_EMPHASIZED_WEIGHT,
    ensures
        emphasized_weight(w) >= w,
        emphasized_weight(w) <= MAX_EMPHASIZED_WEIGHT,
{
}

/// Law: every role has a positive size, a line height above its size, and an
/// emphasized variant at least as heavy as the plain one that differs from
/// it only in weight and the emphasis mark.
pub proof fn lemma_type_scale(role: TypeRole)
    ensures
        styled(role, false).size_sp > 0,
        styled(role, false).line_height_sp > styled(role, false).size_sp,
        styled(role, true).weight >= styled(role, false).weight,
        styled(role, true).size_sp == styled(role, false).size_sp,
        styled(role, true).line_height_sp == styled(role, false).line_height_sp,
        styled(role, true).tracking_centi_em == styled(role, false).tracking_centi_em,
        styled(role, true).emphasized,
        !styled(role, false).emphasized,
{
}

/// Law: within each group of the scale (display, headline, title, body,
/// label) the large style is bigger than the medium one, which is bigger than
/// the small one; each group is at least as big as the next; and emphasis
/// adds exactly one weight step to every role.
pub proof fn lemma_type_scale_order(role: TypeRole)
    ensures
        role_style(TypeRole::DisplayL).size_sp > role_style(TypeRole::DisplayM).size_sp > role_style(TypeRole::DisplayS).size_sp,
        role_style(TypeRole::HeadlineL).size_sp > role_style(TypeRole::HeadlineM).size_sp > role_style(TypeRole::HeadlineS).size_sp,
        role_style(TypeRole::TitleL).size_sp > role_style(TypeRole::TitleM).size_sp > role_style(TypeRole::TitleS).size_sp,
        role_style(TypeRole::BodyL).size_sp > role_style(TypeRole::BodyM).size_sp > role_style(TypeRole::BodyS).size_sp,
        role_style(TypeRole::LabelL).size_sp > role_style(TypeRole::LabelM).size_sp > role_style(TypeRole::LabelS).size_sp,
        role_style(TypeRole::DisplayS).size_sp > role_style(TypeRole::HeadlineL).size_sp,
        role_style(TypeRole::HeadlineS).size_sp > role_style(TypeRole::TitleL).size_sp,
        role_style(TypeRole::TitleM).size_sp >= role_style(TypeRole::BodyL).size_sp,
        role_style(TypeRole::BodyM).size_sp >= role_style(TypeRole::LabelL).size_sp,
        styled(role, true).weight == styled(role, false).weight + 100,
        styled(role, false).weight == 400 || styled(role, false).weight == 500,
{
}

} // verus!
