use material_geek::motion::motion_scheme::SchemeKind;
use material_geek::theme::GeekTheme;
use material_geek::tokens::color::ColorScheme;

#[test]
fn expressive_is_default_geek_choice() {
    let t = GeekTheme::dark_expressive();
    assert_eq!(t.scheme_kind(), SchemeKind::Expressive);
    assert!(t.scheme.is_dark);
}

#[test]
fn four_themes_are_consistent_and_distinct() {
    let all = [
        GeekTheme::light_expressive(),
        GeekTheme::dark_expressive(),
        GeekTheme::light_standard(),
        GeekTheme::dark_standard(),
    ];
    for t in &all {
        assert_eq!(t.expressive_motion, t.scheme_kind() == SchemeKind::Expressive);
    }
    assert_eq!(all[0].scheme, ColorScheme::light());
    assert_eq!(all[3].scheme, ColorScheme::dark());
    assert_eq!(all[2].scheme_kind(), SchemeKind::Standard);
    for i in 0..4 {
        for j in 0..4 {
            assert_eq!(i == j, all[i] == all[j]);
        }
    }
}
