use material_geek::motion::motion_scheme::{MotionScheme, SchemeKind, Tempo, Track};
use material_geek::tokens::motion_tokens::schemes;
use material_geek::tokens::motion_tokens::SpringSpec;

#[test]
fn component_defaults_match_tokens() {
    let (s, e) = MotionScheme::expressive().default_component_specs();
    assert_eq!(s, schemes::expressive_fast_spatial());
    assert_eq!(e, schemes::expressive_fast_effects());
}

#[test]
fn scheme_selects_its_tokens() {
    let x = MotionScheme::expressive();
    assert_eq!(x.kind, SchemeKind::Expressive);
    assert_eq!(x.spec(Tempo::Default, Track::Spatial), schemes::expressive_default_spatial());
    assert_eq!(x.spec(Tempo::Default, Track::Spatial), SpringSpec::new(800, 380));
    assert_eq!(x.spec(Tempo::Slow, Track::Effects), SpringSpec::new(1000, 800));
    let s = MotionScheme::standard();
    assert_eq!(s.kind, SchemeKind::Standard);
    assert_eq!(s.spec(Tempo::Fast, Track::Spatial), SpringSpec::new(900, 1400));
    assert_eq!(s.spec(Tempo::Slow, Track::Spatial), schemes::standard_slow_spatial());
    assert_eq!(s.default_component_specs(), (schemes::standard_fast_spatial(), schemes::standard_fast_effects()));
}

#[test]
fn tracks_split_by_damping_everywhere() {
    for m in [MotionScheme::expressive(), MotionScheme::standard()] {
        for t in [Tempo::Fast, Tempo::Default, Tempo::Slow] {
            assert_eq!(m.spec(t, Track::Effects).damping_ratio_milli, 1000);
            assert!(m.spec(t, Track::Spatial).damping_ratio_milli < 1000);
        }
        assert!(m.spec(Tempo::Fast, Track::Spatial).stiffness > m.spec(Tempo::Default, Track::Spatial).stiffness);
        assert!(m.spec(Tempo::Default, Track::Effects).stiffness > m.spec(Tempo::Slow, Track::Effects).stiffness);
    }
}
