use material_geek::tokens::color::{Argb, ColorScheme};
use material_geek::tokens::elevation::ElevationLevel;
use material_geek::tokens::motion_tokens::schemes;
use material_geek::tokens::motion_tokens::{DurationClass, MotionDurationsMs, SpringSpec};
use material_geek::tokens::shape::ShapeStyle;
use material_geek::tokens::typography::{style, TypeRole, TypeStyle};

fn radius_px(r: Option<u32>) -> f32 {
    match r {
        Some(v) => v as f32,
        None => f32::INFINITY,
    }
}

fn damping(s: SpringSpec) -> f32 {
    s.damping_ratio_milli as f32 / 1000.0
}

const ROLES: [TypeRole; 15] = [
    TypeRole::DisplayL,
    TypeRole::DisplayM,
    TypeRole::DisplayS,
    TypeRole::HeadlineL,
    TypeRole::HeadlineM,
    TypeRole::HeadlineS,
    TypeRole::TitleL,
    TypeRole::TitleM,
    TypeRole::TitleS,
    TypeRole::BodyL,
    TypeRole::BodyM,
    TypeRole::BodyS,
    TypeRole::LabelL,
    TypeRole::LabelM,
    TypeRole::LabelS,
];

#[test]
fn light_dark_differ() {
    assert_ne!(ColorScheme::light(), ColorScheme::dark());
    assert!(!ColorScheme::light().is_dark);
    assert!(ColorScheme::dark().is_dark);
}

#[test]
fn fixed_dim_roles_present() {
    let l = ColorScheme::light();
    assert_ne!(l.primary_fixed, l.primary_fixed_dim);
}

#[test]
fn effects_have_no_overshoot() {
    for s in [
        schemes::expressive_fast_effects(),
        schemes::expressive_default_effects(),
        schemes::expressive_slow_effects(),
        schemes::standard_fast_effects(),
    ] {
        assert_eq!(damping(s), 1.0);
    }
}

#[test]
fn spatial_expressive_bouncier_than_standard() {
    assert!(
        damping(schemes::expressive_default_spatial()) < damping(schemes::standard_default_spatial())
    );
}

#[test]
fn expressive_radii_present() {
    assert_eq!(radius_px(ShapeStyle::LargeIncreased.radius_dp()), 20.0);
    assert_eq!(radius_px(ShapeStyle::ExtraLargeIncreased.radius_dp()), 32.0);
    assert_eq!(radius_px(ShapeStyle::ExtraExtraLarge.radius_dp()), 48.0);
}

#[test]
fn all_roles_have_positive_size() {
    for r in ROLES {
        assert!(style(r, false).size_sp as f32 > 0.0);
        assert!(style(r, true).weight >= style(r, false).weight);
    }
}

#[test]
fn argb_packs_channels_in_order() {
    let c = Argb::new(0x12, 0x34, 0x56, 0x78);
    assert_eq!(c.0, 0x1234_5678);
    assert_eq!(c.0 >> 24, 0x12);
    assert_eq!((c.0 >> 16) & 0xFF, 0x34);
    assert_eq!((c.0 >> 8) & 0xFF, 0x56);
    assert_eq!(c.0 & 0xFF, 0x78);
    assert_eq!(Argb::new(0, 0, 0, 0).0, 0);
    assert_eq!(Argb::new(0xFF, 0xFF, 0xFF, 0xFF).0, 0xFFFF_FFFF);
}

#[test]
fn rgb_is_opaque_and_matches_hex() {
    assert_eq!(Argb::rgb(0x67, 0x50, 0xA4), Argb(0xFF67_50A4));
    assert_eq!(Argb::rgb(0x67, 0x50, 0xA4), Argb::hex(0x6750A4));
    assert_eq!(Argb::hex(0).0, 0xFF00_0000);
}

#[test]
fn hex_merges_high_bits_into_alpha() {
    assert_eq!(Argb::hex(0x0100_0000).0, 0xFF00_0000);
    assert_eq!(Argb::hex(0xFFFF_FFFF).0, 0xFFFF_FFFF);
}

#[test]
fn baseline_roles_are_opaque_and_linked() {
    for s in [ColorScheme::light(), ColorScheme::dark()] {
        assert_eq!(s.surface_tint, s.primary);
        assert_eq!(s.background, s.surface);
        assert_eq!(s.primary.0 >> 24, 0xFF);
        assert_eq!(s.scrim, Argb(0xFF00_0000));
    }
    assert_eq!(ColorScheme::light().primary, Argb(0xFF67_50A4));
    assert_eq!(ColorScheme::dark().primary, Argb(0xFFD0_BCFF));
    assert_eq!(ColorScheme::light().inverse_primary, ColorScheme::dark().primary);
    assert_eq!(ColorScheme::light().primary_fixed, ColorScheme::dark().primary_fixed);
}

#[test]
fn elevation_heights() {
    let levels = [
        ElevationLevel::L0,
        ElevationLevel::L1,
        ElevationLevel::L2,
        ElevationLevel::L3,
        ElevationLevel::L4,
        ElevationLevel::L5,
    ];
    let dps: Vec<u32> = levels.iter().map(|l| l.dp()).collect();
    assert_eq!(dps, vec![0, 1, 3, 6, 8, 12]);
    assert!(dps.windows(2).all(|w| w[0] < w[1]));
}

#[test]
fn durations_grow_with_class() {
    assert_eq!(DurationClass::Short1.ms(), 50);
    assert_eq!(DurationClass::Medium2.ms(), 300);
    assert_eq!(DurationClass::Long4.ms(), 600);
    assert_eq!(DurationClass::ExtraLong1.ms(), 700);
    assert_eq!(DurationClass::ExtraLong4.ms(), 1000);
    assert_eq!(MotionDurationsMs::STANDARD, 300);
    assert_eq!(MotionDurationsMs::EMPHASIZED_ON_SCREEN, 500);
}

#[test]
fn shape_radius_scale() {
    assert_eq!(ShapeStyle::Square.radius_dp(), Some(0));
    assert_eq!(ShapeStyle::Medium.radius_dp(), Some(12));
    assert_eq!(ShapeStyle::Full.radius_dp(), None);
    assert_eq!(radius_px(ShapeStyle::Full.radius_dp()), f32::INFINITY);
}

#[test]
fn spring_new_keeps_fields() {
    let s = SpringSpec::new(750, 420);
    assert_eq!(s.damping_ratio_milli, 750);
    assert_eq!(s.stiffness, 420);
    assert_eq!(schemes::spring_default(), SpringSpec::new(1000, 1500));
    assert_eq!(schemes::spring_enter_exit(), SpringSpec::new(1000, 400));
}

#[test]
fn emphasis_adds_one_weight_step_capped_at_700() {
    let base = TypeStyle::of(16, 24, 400, 50);
    let e = base.emphasized();
    assert_eq!(e.weight, 500);
    assert!(e.emphasized);
    assert_eq!((e.size_sp, e.line_height_sp, e.tracking_centi_em), (16, 24, 50));
    assert_eq!(TypeStyle::of(14, 20, 650, 0).emphasized().weight, 700);
    assert_eq!(TypeStyle::of(14, 20, 700, 0).emphasized().weight, 700);
    // A style already heavier than the cap is pulled down to it.
    assert_eq!(TypeStyle::of(14, 20, 800, 0).emphasized().weight, 700);
}

#[test]
fn type_scale_values() {
    let d = style(TypeRole::DisplayL, false);
    assert_eq!((d.size_sp, d.line_height_sp, d.weight, d.tracking_centi_em), (57, 64, 400, -25));
    let t = style(TypeRole::TitleM, true);
    assert_eq!((t.size_sp, t.line_height_sp, t.weight, t.tracking_centi_em), (16, 24, 600, 15));
    assert!(t.emphasized);
    assert!(!style(TypeRole::LabelS, false).emphasized);
}
