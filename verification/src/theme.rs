//! A theme: a color scheme bound to a motion scheme.
use crate::motion::motion_scheme::{MotionScheme, SchemeKind};
use crate::tokens::color::{dark_scheme, light_scheme, ColorScheme};
use vstd::prelude::*;

verus! {

/// A color scheme, a motion scheme, and whether the motion is expressive.
#[derive(Clone, Debug, PartialEq, Eq, Structural)]
pub struct GeekTheme {
    pub scheme: ColorScheme,
    pub motion: MotionScheme,
    pub expressive_motion: bool,
}

/// The theme built from a light or dark baseline and a motion scheme kind.
pub open spec fn theme_of(dark: bool, kind: SchemeKind) -> GeekTheme {
    GeekTheme {
        scheme: if dark { dark_scheme() } else { light_scheme() },
        motion: MotionScheme { kind },
        expressive_motion: kind == SchemeKind::Expressive,
    }
}

impl GeekTheme {
    /// Light colors with expressive motion.
    pub fn light_expressive() -> (t: Self)
        ensures
            t == theme_of(false, SchemeKind::Expressive),
            t.scheme == light_scheme(),
            t.scheme.is_dark == false,
            t.motion.kind == SchemeKind::Expressive,
            t.expressive_motion == true,
    {
        Self {
            scheme: ColorScheme::light(),
            motion: MotionScheme::expressive(),
            expressive_motion: true,
        }
    }

    /// Dark colors with expressive motion.
    pub fn dark_expressive() -> (t: Self)
        ensures
            t == theme_of(true, SchemeKind::Expressive),
            t.scheme == dark_scheme(),
            t.scheme.is_dark == true,
            t.motion.kind == SchemeKind::Expressive,
            t.expressive_motion == true,
    {
        Self {
            scheme: ColorScheme::dark(),
            motion: MotionScheme::expressive(),
            expressive_motion: true,
        }
    }

    /// Light colors with standard motion.
    pub fn light_standard() -> (t: Self)
        ensures
            t == theme_of(false, SchemeKind::Standard),
            t.scheme == light_scheme(),
            t.scheme.is_dark == false,
            t.motion.kind == SchemeKind::Standard,
            t.expressive_motion == false,
    {
        Self {
            scheme: ColorScheme::light(),
            motion: MotionScheme::standard(),
            expressive_motion: false,
        }
    }

    /// Dark colors with standard motion.
    pub fn dark_standard() -> (t: Self)
        ensures
            t == theme_of(true, SchemeKind::Standard),
            t.scheme == dark_scheme(),
            t.scheme.is_dark == true,
            t.motion.kind == SchemeKind::Standard,
            t.expressive_motion == false,
    {
        Self {
            scheme: ColorScheme::dark(),
            motion: MotionScheme::standard(),
            expressive_motion: false,
        }
    }

    /// The kind of the theme's motion scheme.
    pub fn scheme_kind(&self) -> (k: SchemeKind)
        ensures
            k == self.motion.kind,
    {
        self.motion.kind
    }
}

/// Law: in every theme built by the four constructors, the expressive flag
/// agrees with the motion scheme kind, and the color scheme is dark exactly
/// when the theme is a dark one.
pub proof fn lemma_theme_consistent(dark: bool, kind: SchemeKind)
    ensures
        theme_of(dark, kind).expressive_motion <==> theme_of(dark, kind).motion.kind == SchemeKind::Expressive,
        theme_of(dark, kind).scheme.is_dark == dark,
        theme_of(dark, kind).motion.kind == kind,
{
}

/// Law: a dark theme carries the whole dark baseline scheme and a light theme
/// the whole light one, whatever its motion; the motion scheme never changes
/// the colors.
pub proof fn lemma_theme_colors(dark: bool, kind: SchemeKind)
    ensures
        dark ==> theme_of(dark, kind).scheme == dark_scheme(),
        !dark ==> theme_of(dark, kind).scheme == light_scheme(),
        theme_of(dark, SchemeKind::Expressive).scheme == theme_of(dark, SchemeKind::Standard).scheme,
{
}

/// Law: the four constructors build four different themes.
pub proof fn lemma_themes_distinct(d1: bool, k1: SchemeKind, d2: bool, k2: SchemeKind)
    requires
        d1 != d2 || k1 != k2,
    ensures
        theme_of(d1, k1) != theme_of(d2, k2),
{
    if d1 != d2 {
        assert(theme_of(d1, k1).scheme.is_dark != theme_of(d2, k2).scheme.is_dark);
    } else {
        assert(theme_of(d1, k1).motion.kind != theme_of(d2, k2).motion.kind);
    }
}

} // verus!
