//! Packed ARGB colors and the baseline light and dark color schemes.
use vstd::prelude::*;

verus! {

/// A color packed as `0xAARRGGBB`.
#[derive(Clone, Copy, Debug, PartialEq, Eq, Hash, Structural)]
pub struct Argb(pub u32);

/// The packed word for the four channels.
pub open spec fn pack(a: u8, r: u8, g: u8, b: u8) -> int {
    (a as u32) * 0x0100_0000 + (r as u32) * 0x0001_0000 + (g as u32) * 0x0100 + (b as u32)
}

/// Alpha channel of a packed color.
pub open spec fn alpha_of(c: Argb) -> u8 {
    (c.0 / 0x0100_0000) as u8
}

/// Red channel of a packed color.
pub open spec fn red_of(c: Argb) -> u8 {
    ((c.0 / 0x0001_0000) % 0x100) as u8
}

/// Green channel of a packed color.
pub open spec fn green_of(c: Argb) -> u8 {
    ((c.0 / 0x0100) % 0x100) as u8
}

/// Blue channel of a packed color.
pub open spec fn blue_of(c: Argb) -> u8 {
    (c.0 % 0x100) as u8
}

impl Argb {
    /// Packs alpha, red, green and blue into one word.
    pub fn new(a: u8, r: u8, g: u8, b: u8) -> (c: Self)
        ensures
            c.0 == pack(a, r, g, b),
    {
        let w = ((a as u32) << 24) | ((r as u32) << 16) | ((g as u32) << 8) | (b as u32);
        assert(w == pack(a, r, g, b)) by (bit_vector)
            requires
                w == ((a as u32) << 24) | ((r as u32) << 16) | ((g as u32) << 8) | (b as u32),
        ;
        Argb(w)
    }

    /// An opaque color from red, green and blue.
    pub fn rgb(r: u8, g: u8, b: u8) -> (c: Self)
        ensures
            c.0 == pack(0xFF, r, g, b),
    {
        Self::new(0xFF, r, g, b)
    }

    /// An opaque color from a `0xRRGGBB` word; bits above the low 24 are
    /// merged into the alpha byte, which is forced to `0xFF`.
    pub fn hex(rgb: u32) -> (c: Self)
        ensures
            c.0 == (0xFF00_0000u32 | rgb),
            rgb <= 0x00FF_FFFF ==> c.0 == 0xFF00_0000 + rgb,
            alpha_of(c) == 0xFF,
    {
        let w = 0xFF00_0000u32 | rgb;
        assert(rgb <= 0x00FF_FFFF ==> w == 0xFF00_0000 + rgb) by (bit_vector)
            requires
                w == 0xFF00_0000u32 | rgb,
        ;
        assert(w / 0x0100_0000 == 0xFF) by (bit_vector)
            requires
                w == 0xFF00_0000u32 | rgb,
        ;
        Argb(w)
    }
}

/// Law: the channels read back from a packed color are the ones packed.
pub proof fn lemma_pack_channels(a: u8, r: u8, g: u8, b: u8)
    ensures
        alpha_of(Argb(pack(a, r, g, b) as u32)) == a,
        red_of(Argb(pack(a, r, g, b) as u32)) == r,
        green_of(Argb(pack(a, r, g, b) as u32)) == g,
        blue_of(Argb(pack(a, r, g, b) as u32)) == b,
{
    let w = pack(a, r, g, b);
    assert(w / 0x0100_0000 == a) by (nonlinear_arith)
        requires w == a * 0x0100_0000 + r * 0x0001_0000 + g * 0x0100 + b, a < 256, r < 256, g < 256, b < 256;
    assert((w / 0x0001_0000) % 0x100 == r) by (nonlinear_arith)
        requires w == a * 0x0100_0000 + r * 0x0001_0000 + g * 0x0100 + b, a < 256, r < 256, g < 256, b < 256;
    assert((w / 0x0100) % 0x100 == g) by (nonlinear_arith)
        requires w == a * 0x0100_0000 + r * 0x0001_0000 + g * 0x0100 + b, a < 256, r < 256, g < 256, b < 256;
    assert(w % 0x100 == b) by (nonlinear_arith)
        requires w == a * 0x0100_0000 + r * 0x0001_0000 + g * 0x0100 + b, a < 256, r < 256, g < 256, b < 256;
}

/// Law: an opaque color built from its channels is the color `hex` builds
/// from the same channels written as one `0xRRGGBB` word.
pub proof fn lemma_rgb_is_hex(r: u8, g: u8, b: u8)
    ensures
        pack(0xFF, r, g, b) == (0xFF00_0000u32 | ((r as u32) * 0x0001_0000 + (g as u32) * 0x0100 + (b as u32)) as u32),
{
    let x: u32 = ((r as u32) * 0x0001_0000 + (g as u32) * 0x0100 + (b as u32)) as u32;
    assert(x <= 0x00FF_FFFF);
    assert(x <= 0x00FF_FFFF ==> (0xFF00_0000u32 | x) == 0xFF00_0000 + x) by (bit_vector);
}

/// The full set of color roles of one scheme.
#[derive(Clone, Debug, PartialEq, Eq, Structural)]
pub struct ColorScheme {
    pub is_dark: bool,
    pub primary: Argb,
    pub on_primary: Argb,
    pub primary_container: Argb,
    pub on_primary_container: Argb,
    pub inverse_primary: Argb,
    pub secondary: Argb,
    pub on_secondary: Argb,
    pub secondary_container: Argb,
    pub on_secondary_container: Argb,
    pub tertiary: Argb,
    pub on_tertiary: Argb,
    pub tertiary_container: Argb,
    pub on_tertiary_container: Argb,
    pub error: Argb,
    pub on_error: Argb,
    pub error_container: Argb,
    pub on_error_container: Argb,
    pub background: Argb,
    pub on_background: Argb,
    pub surface: Argb,
    pub on_surface: Argb,
    pub surface_variant: Argb,
    pub on_surface_variant: Argb,
    pub surface_tint: Argb,
    pub surface_dim: Argb,
    pub surface_bright: Argb,
    pub surface_container_lowest: Argb,
    pub surface_container_low: Argb,
    pub surface_container: Argb,
    pub surface_container_high: Argb,
    pub surface_container_highest: Argb,
    pub inverse_surface: Argb,
    pub inverse_on_surface: Argb,
    pub outline: Argb,
    pub outline_variant: Argb,
    pub scrim: Argb,
    pub shadow: Argb,
    pub primary_fixed: Argb,
    pub primary_fixed_dim: Argb,
    pub on_primary_fixed: Argb,
    pub on_primary_fixed_variant: Argb,
    pub secondary_fixed: Argb,
    pub secondary_fixed_dim: Argb,
    pub on_secondary_fixed: Argb,
    pub on_secondary_fixed_variant: Argb,
    pub tertiary_fixed: Argb,
    pub tertiary_fixed_dim: Argb,
    pub on_tertiary_fixed: Argb,
    pub on_tertiary_fixed_variant: Argb,
    pub error_dim: Argb,
}

/// The light baseline scheme, role by role.
pub open spec fn light_scheme() -> ColorScheme {
    ColorScheme {
        is_dark: false,
        primary: Argb(0xFF6750A4),
        on_primary: Argb(0xFFFFFFFF),
        primary_container: Argb(0xFFEADDFF),
        on_primary_container: Argb(0xFF4F378B),
        inverse_primary: Argb(0xFFD0BCFF),
        secondary: Argb(0xFF625B71),
        on_secondary: Argb(0xFFFFFFFF),
        secondary_container: Argb(0xFFE8DEF8),
        on_secondary_container: Argb(0xFF4A4458),
        tertiary: Argb(0xFF7D5260),
        on_tertiary: Argb(0xFFFFFFFF),
        tertiary_container: Argb(0xFFFFD8E4),
        on_tertiary_container: Argb(0xFF633B48),
        error: Argb(0xFFB3261E),
        on_error: Argb(0xFFFFFFFF),
        error_container: Argb(0xFFF9DEDC),
        on_error_container: Argb(0xFF410002),
        background: Argb(0xFFFEF7FF),
        on_background: Argb(0xFF1D1B20),
        surface: Argb(0xFFFEF7FF),
        on_surface: Argb(0xFF1D1B20),
        surface_variant: Argb(0xFFE7E0EC),
        on_surface_variant: Argb(0xFF49454F),
        surface_tint: Argb(0xFF6750A4),
        surface_dim: Argb(0xFFDED8E1),
        surface_bright: Argb(0xFFFEF7FF),
        surface_container_lowest: Argb(0xFFFFFFFF),
        surface_container_low: Argb(0xFFF7F2FA),
        surface_container: Argb(0xFFF3EDF7),
        surface_container_high: Argb(0xFFECE6F0),
        surface_container_highest: Argb(0xFFE6E0E9),
        inverse_surface: Argb(0xFF322F35),
        inverse_on_surface: Argb(0xFFF5EFF7),
        outline: Argb(0xFF79747E),
        outline_variant: Argb(0xFFCAC4D0),
        scrim: Argb(0xFF000000),
        shadow: Argb(0xFF000000),
        primary_fixed: Argb(0xFFEADDFF),
        primary_fixed_dim: Argb(0xFFD0BCFF),
        on_primary_fixed: Argb(0xFF4F378B),
        on_primary_fixed_variant: Argb(0xFF4F378B),
        secondary_fixed: Argb(0xFFE8DEF8),
        secondary_fixed_dim: Argb(0xFFCCC2DC),
        on_secondary_fixed: Argb(0xFF4A4458),
        on_secondary_fixed_variant: Argb(0xFF4A4458),
        tertiary_fixed: Argb(0xFFFFD8E4),
        tertiary_fixed_dim: Argb(0xFFEFB8C8),
        on_tertiary_fixed: Argb(0xFF633B48),
        on_tertiary_fixed_variant: Argb(0xFF633B48),
        error_dim: Argb(0xFFEFB8C8),
    }
}

/// The dark baseline scheme, role by role.
pub open spec fn dark_scheme() -> ColorScheme {
    ColorScheme {
        is_dark: true,
        primary: Argb(0xFFD0BCFF),
        on_primary: Argb(0xFF381E72),
        primary_container: Argb(0xFF4F378B),
        on_primary_container: Argb(0xFFEADDFF),
        inverse_primary: Argb(0xFF6750A4),
        secondary: Argb(0xFFCCC2DC),
        on_secondary: Argb(0xFF332D41),
        secondary_container: Argb(0xFF4A4458),
        on_secondary_container: Argb(0xFFE8DEF8),
        tertiary: Argb(0xFFEFB8C8),
        on_tertiary: Argb(0xFF492532),
        tertiary_container: Argb(0xFF633B48),
        on_tertiary_container: Argb(0xFFFFD8E4),
        error: Argb(0xFFF2B8B5),
        on_error: Argb(0xFF601410),
        error_container: Argb(0xFF8C1D18),
        on_error_container: Argb(0xFFF9DEDC),
        background: Argb(0xFF141218),
        on_background: Argb(0xFFE6E0E9),
        surface: Argb(0xFF141218),
        on_surface: Argb(0xFFE6E0E9),
        surface_variant: Argb(0xFF49454F),
        on_surface_variant: Argb(0xFFCAC4D0),
        surface_tint: Argb(0xFFD0BCFF),
        surface_dim: Argb(0xFF141218),
        surface_bright: Argb(0xFF3B383E),
        surface_container_lowest: Argb(0xFF0F0D13),
        surface_container_low: Argb(0xFF1D1B20),
        surface_container: Argb(0xFF211F26),
        surface_container_high: Argb(0xFF2B2930),
        surface_container_highest: Argb(0xFF36343B),
        inverse_surface: Argb(0xFFE6E0E9),
        inverse_on_surface: Argb(0xFF322F35),
        outline: Argb(0xFF938F99),
        outline_variant: Argb(0xFF49454F),
        scrim: Argb(0xFF000000),
        shadow: Argb(0xFF000000),
        primary_fixed: Argb(0xFFEADDFF),
        primary_fixed_dim: Argb(0xFFD0BCFF),
        on_primary_fixed: Argb(0xFF4F378B),
        on_primary_fixed_variant: Argb(0xFF381E72),
        secondary_fixed: Argb(0xFFE8DEF8),
        secondary_fixed_dim: Argb(0xFFCCC2DC),
        on_secondary_fixed: Argb(0xFF4A4458),
        on_secondary_fixed_variant: Argb(0xFF332D41),
        tertiary_fixed: Argb(0xFFFFD8E4),
        tertiary_fixed_dim: Argb(0xFFEFB8C8),
        on_tertiary_fixed: Argb(0xFF633B48),
        on_tertiary_fixed_variant: Argb(0xFF492532),
        error_dim: Argb(0xFF8C1D18),
    }
}

impl ColorScheme {
    /// The baseline light scheme.
    pub fn light() -> (s: Self)
        ensures
            s == light_scheme(),
    {
        Self {
            is_dark: false,
            primary: Argb::hex(0x6750A4),
            on_primary: Argb::hex(0xFFFFFF),
            primary_container: Argb::hex(0xEADDFF),
            on_primary_container: Argb::hex(0x4F378B),
            inverse_primary: Argb::hex(0xD0BCFF),
            secondary: Argb::hex(0x625B71),
            on_secondary: Argb::hex(0xFFFFFF),
            secondary_container: Argb::hex(0xE8DEF8),
            on_secondary_container: Argb::hex(0x4A4458),
            tertiary: Argb::hex(0x7D5260),
            on_tertiary: Argb::hex(0xFFFFFF),
            tertiary_container: Argb::hex(0xFFD8E4),
            on_tertiary_container: Argb::hex(0x633B48),
            error: Argb::hex(0xB3261E),
            on_error: Argb::hex(0xFFFFFF),
            error_container: Argb::hex(0xF9DEDC),
            on_error_container: Argb::hex(0x410002),
            background: Argb::hex(0xFEF7FF),
            on_background: Argb::hex(0x1D1B20),
            surface: Argb::hex(0xFEF7FF),
            on_surface: Argb::hex(0x1D1B20),
            surface_variant: Argb::hex(0xE7E0EC),
            on_surface_variant: Argb::hex(0x49454F),
            surface_tint: Argb::hex(0x6750A4),
            surface_dim: Argb::hex(0xDED8E1),
            surface_bright: Argb::hex(0xFEF7FF),
            surface_container_lowest: Argb::hex(0xFFFFFF),
            surface_container_low: Argb::hex(0xF7F2FA),
            surface_container: Argb::hex(0xF3EDF7),
            surface_container_high: Argb::hex(0xECE6F0),
            surface_container_highest: Argb::hex(0xE6E0E9),
            inverse_surface: Argb::hex(0x322F35),
            inverse_on_surface: Argb::hex(0xF5EFF7),
            outline: Argb::hex(0x79747E),
            outline_variant: Argb::hex(0xCAC4D0),
            scrim: Argb::hex(0x000000),
            shadow: Argb::hex(0x000000),
            primary_fixed: Argb::hex(0xEADDFF),
            primary_fixed_dim: Argb::hex(0xD0BCFF),
            on_primary_fixed: Argb::hex(0x4F378B),
            on_primary_fixed_variant: Argb::hex(0x4F378B),
            secondary_fixed: Argb::hex(0xE8DEF8),
            secondary_fixed_dim: Argb::hex(0xCCC2DC),
            on_secondary_fixed: Argb::hex(0x4A4458),
            on_secondary_fixed_variant: Argb::hex(0x4A4458),
            tertiary_fixed: Argb::hex(0xFFD8E4),
            tertiary_fixed_dim: Argb::hex(0xEFB8C8),
            on_tertiary_fixed: Argb::hex(0x633B48),
            on_tertiary_fixed_variant: Argb::hex(0x633B48),
            error_dim: Argb::hex(0xEFB8C8),
        }
    }

    /// The baseline dark scheme.
    pub fn dark() -> (s: Self)
        ensures
            s == dark_scheme(),
    {
        Self {
            is_dark: true,
            primary: Argb::hex(0xD0BCFF),
            on_primary: Argb::hex(0x381E72),
            primary_container: Argb::hex(0x4F378B),
            on_primary_container: Argb::hex(0xEADDFF),
            inverse_primary: Argb::hex(0x6750A4),
            secondary: Argb::hex(0xCCC2DC),
            on_secondary: Argb::hex(0x332D41),
            secondary_container: Argb::hex(0x4A4458),
            on_secondary_container: Argb::hex(0xE8DEF8),
            tertiary: Argb::hex(0xEFB8C8),
            on_tertiary: Argb::hex(0x492532),
            tertiary_container: Argb::hex(0x633B48),
            on_tertiary_container: Argb::hex(0xFFD8E4),
            error: Argb::hex(0xF2B8B5),
            on_error: Argb::hex(0x601410),
            error_container: Argb::hex(0x8C1D18),
            on_error_container: Argb::hex(0xF9DEDC),
            background: Argb::hex(0x141218),
            on_background: Argb::hex(0xE6E0E9),
            surface: Argb::hex(0x141218),
            on_surface: Argb::hex(0xE6E0E9),
            surface_variant: Argb::hex(0x49454F),
            on_surface_variant: Argb::hex(0xCAC4D0),
            surface_tint: Argb::hex(0xD0BCFF),
            surface_dim: Argb::hex(0x141218),
            surface_bright: Argb::hex(0x3B383E),
            surface_container_lowest: Argb::hex(0x0F0D13),
            surface_container_low: Argb::hex(0x1D1B20),
            surface_container: Argb::hex(0x211F26),
            surface_container_high: Argb::hex(0x2B2930),
            surface_container_highest: Argb::hex(0x36343B),
            inverse_surface: Argb::hex(0xE6E0E9),
            inverse_on_surface: Argb::hex(0x322F35),
            outline: Argb::hex(0x938F99),
            outline_variant: Argb::hex(0x49454F),
            scrim: Argb::hex(0x000000),
            shadow: Argb::hex(0x000000),
            primary_fixed: Argb::hex(0xEADDFF),
            primary_fixed_dim: Argb::hex(0xD0BCFF),
            on_primary_fixed: Argb::hex(0x4F378B),
            on_primary_fixed_variant: Argb::hex(0x381E72),
            secondary_fixed: Argb::hex(0xE8DEF8),
            secondary_fixed_dim: Argb::hex(0xCCC2DC),
            on_secondary_fixed: Argb::hex(0x4A4458),
            on_secondary_fixed_variant: Argb::hex(0x332D41),
            tertiary_fixed: Argb::hex(0xFFD8E4),
            tertiary_fixed_dim: Argb::hex(0xEFB8C8),
            on_tertiary_fixed: Argb::hex(0x633B48),
            on_tertiary_fixed_variant: Argb::hex(0x492532),
            error_dim: Argb::hex(0x8C1D18),
        }
    }

}

/// Every role of a scheme, in declaration order.
pub open spec fn roles(s: ColorScheme) -> Seq<Argb> {
    seq![
        s.primary,
        s.on_primary,
        s.primary_container,
        s.on_primary_container,
        s.inverse_primary,
        s.secondary,
        s.on_secondary,
        s.secondary_container,
        s.on_secondary_container,
        s.tertiary,
        s.on_tertiary,
        s.tertiary_container,
        s.on_tertiary_container,
        s.error,
        s.on_error,
        s.error_container,
        s.on_error_container,
        s.background,
        s.on_background,
        s.surface,
        s.on_surface,
        s.surface_variant,
        s.on_surface_variant,
        s.surface_tint,
        s.surface_dim,
        s.surface_bright,
        s.surface_container_lowest,
        s.surface_container_low,
        s.surface_container,
        s.surface_container_high,
        s.surface_container_highest,
        s.inverse_surface,
        s.inverse_on_surface,
        s.outline,
        s.outline_variant,
        s.scrim,
        s.shadow,
        s.primary_fixed,
        s.primary_fixed_dim,
        s.on_primary_fixed,
        s.on_primary_fixed_variant,
        s.secondary_fixed,
        s.secondary_fixed_dim,
        s.on_secondary_fixed,
        s.on_secondary_fixed_variant,
        s.tertiary_fixed,
        s.tertiary_fixed_dim,
        s.on_tertiary_fixed,
        s.on_tertiary_fixed_variant,
        s.error_dim
    ]
}

/// Law: every role of both baseline schemes is fully opaque.
#[verifier::spinoff_prover]
#[verifier::rlimit(50)]
pub proof fn lemma_baseline_roles_opaque()
    ensures
        forall|i: int| 0 <= i < roles(light_scheme()).len() ==> alpha_of(#[trigger] roles(light_scheme())[i]) == 0xFF,
        forall|i: int| 0 <= i < roles(dark_scheme()).len() ==> alpha_of(#[trigger] roles(dark_scheme())[i]) == 0xFF,
        roles(light_scheme()).len() == 50,
        roles(dark_scheme()).len() == 50,
{
}

/// Law: the two baseline schemes differ, and each says which one it is.
pub proof fn lemma_light_dark_differ()
    ensures
        light_scheme() != dark_scheme(),
        !light_scheme().is_dark,
        dark_scheme().is_dark,
{
}

/// Law: in both baseline schemes the surface tint is the primary color, the
/// background is the surface, and the fixed roles are distinct from their
/// dim variants.
pub proof fn lemma_scheme_role_links(s: ColorScheme)
    requires
        s == light_scheme() || s == dark_scheme(),
    ensures
        s.surface_tint == s.primary,
        s.background == s.surface,
        s.on_background == s.on_surface,
        s.primary_fixed != s.primary_fixed_dim,
        s.secondary_fixed != s.secondary_fixed_dim,
        s.tertiary_fixed != s.tertiary_fixed_dim,
{
}

/// Law: the inverse primary of each baseline scheme is the primary of the
/// other one, and the fixed roles are the same in light and dark.
pub proof fn lemma_fixed_and_inverse_roles()
    ensures
        light_scheme().inverse_primary == dark_scheme().primary,
        dark_scheme().inverse_primary == light_scheme().primary,
        light_scheme().primary_fixed == dark_scheme().primary_fixed,
        light_scheme().primary_fixed_dim == dark_scheme().primary_fixed_dim,
        light_scheme().on_primary_fixed == dark_scheme().on_primary_fixed,
        light_scheme().secondary_fixed == dark_scheme().secondary_fixed,
        light_scheme().secondary_fixed_dim == dark_scheme().secondary_fixed_dim,
        light_scheme().on_secondary_fixed == dark_scheme().on_secondary_fixed,
        light_scheme().tertiary_fixed == dark_scheme().tertiary_fixed,
        light_scheme().tertiary_fixed_dim == dark_scheme().tertiary_fixed_dim,
        light_scheme().on_tertiary_fixed == dark_scheme().on_tertiary_fixed,
{
}

/// The sum of the red, green and blue channels: a coarse lightness.
pub open spec fn brightness(c: Argb) -> int {
    red_of(c) as int + green_of(c) as int + blue_of(c) as int
}

/// The red channel strictly dominates green and blue.
pub open spec fn reddish(c: Argb) -> bool {
    red_of(c) > green_of(c) && red_of(c) > blue_of(c)
}

/// Law: content colors contrast with what they sit on, in the direction of
/// the scheme. In the light scheme the accent colors are darker than the
/// content drawn on them, while containers, surfaces and fixed colors are
/// lighter than theirs, and the inverse surface is dark; the dark scheme is
/// the other way round for every pair except the fixed colors, which are
/// light in both.
#[verifier::spinoff_prover]
#[verifier::rlimit(50)]
pub proof fn lemma_content_contrast()
    ensures
        brightness(light_scheme().primary) < brightness(light_scheme().on_primary),
        brightness(light_scheme().secondary) < brightness(light_scheme().on_secondary),
        brightness(light_scheme().tertiary) < brightness(light_scheme().on_tertiary),
        brightness(light_scheme().error) < brightness(light_scheme().on_error),
        brightness(light_scheme().primary_container) > brightness(light_scheme().on_primary_container),
        brightness(light_scheme().secondary_container) > brightness(light_scheme().on_secondary_container),
        brightness(light_scheme().tertiary_container) > brightness(light_scheme().on_tertiary_container),
        brightness(light_scheme().error_container) > brightness(light_scheme().on_error_container),
        brightness(light_scheme().background) > brightness(light_scheme().on_background),
        brightness(light_scheme().surface) > brightness(light_scheme().on_surface),
        brightness(light_scheme().surface_variant) > brightness(light_scheme().on_surface_variant),
        brightness(light_scheme().primary_fixed) > brightness(light_scheme().on_primary_fixed),
        brightness(light_scheme().secondary_fixed) > brightness(light_scheme().on_secondary_fixed),
        brightness(light_scheme().tertiary_fixed) > brightness(light_scheme().on_tertiary_fixed),
        brightness(light_scheme().inverse_surface) < brightness(light_scheme().inverse_on_surface),
        brightness(dark_scheme().primary) > brightness(dark_scheme().on_primary),
        brightness(dark_scheme().secondary) > brightness(dark_scheme().on_secondary),
        brightness(dark_scheme().tertiary) > brightness(dark_scheme().on_tertiary),
        brightness(dark_scheme().error) > brightness(dark_scheme().on_error),
        brightness(dark_scheme().primary_container) < brightness(dark_scheme().on_primary_container),
        brightness(dark_scheme().secondary_container) < brightness(dark_scheme().on_secondary_container),
        brightness(dark_scheme().tertiary_container) < brightness(dark_scheme().on_tertiary_container),
        brightness(dark_scheme().error_container) < brightness(dark_scheme().on_error_container),
        brightness(dark_scheme().background) < brightness(dark_scheme().on_background),
        brightness(dark_scheme().surface) < brightness(dark_scheme().on_surface),
        brightness(dark_scheme().surface_variant) < brightness(dark_scheme().on_surface_variant),
        brightness(dark_scheme().primary_fixed) > brightness(dark_scheme().on_primary_fixed),
        brightness(dark_scheme().secondary_fixed) > brightness(dark_scheme().on_secondary_fixed),
        brightness(dark_scheme().tertiary_fixed) > brightness(dark_scheme().on_tertiary_fixed),
        brightness(dark_scheme().inverse_surface) > brightness(dark_scheme().inverse_on_surface),
{
}

/// Law: the error roles read as red: the error color and the error
/// container are red-dominant in both baseline schemes.
#[verifier::spinoff_prover]
#[verifier::rlimit(50)]
pub proof fn lemma_error_roles_red()
    ensures
        reddish(light_scheme().error),
        reddish(light_scheme().error_container),
        reddish(dark_scheme().error),
        reddish(dark_scheme().error_container),
{
}

/// Law: surface containers step in lightness with their height: darker as
/// they rise in the light scheme, lighter as they rise in the dark scheme.
#[verifier::spinoff_prover]
#[verifier::rlimit(50)]
pub proof fn lemma_surface_container_ladder()
    ensures
        brightness(light_scheme().surface_container_lowest) > brightness(light_scheme().surface_container_low),
        brightness(light_scheme().surface_container_low) > brightness(light_scheme().surface_container),
        brightness(light_scheme().surface_container) > brightness(light_scheme().surface_container_high),
        brightness(light_scheme().surface_container_high) > brightness(light_scheme().surface_container_highest),
        brightness(dark_scheme().surface_container_lowest) < brightness(dark_scheme().surface_container_low),
        brightness(dark_scheme().surface_container_low) < brightness(dark_scheme().surface_container),
        brightness(dark_scheme().surface_container) < brightness(dark_scheme().surface_container_high),
        brightness(dark_scheme().surface_container_high) < brightness(dark_scheme().surface_container_highest),
        brightness(light_scheme().surface_dim) < brightness(light_scheme().surface_bright),
        brightness(dark_scheme().surface_dim) < brightness(dark_scheme().surface_bright),
{
}

} // verus!
