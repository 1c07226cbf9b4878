use material_geek::components::ComponentId;
use material_geek::gallery::{body_height_dp, GalleryAction, GallerySelection};

#[test]
fn starting_selection() {
    let s = GallerySelection::new();
    assert_eq!(s.switches, [true, false]);
    assert_eq!(s.checks, [0, 1, 2]);
    assert_eq!(s.chips, [false, true, false, false]);
    assert_eq!(s.menu_sel, 1);
    assert!(!s.fab_open);
}

#[test]
fn toggles_flip_and_flip_back() {
    let mut s = GallerySelection::new();
    s.activate(GalleryAction::Switch(1));
    assert_eq!(s.switches, [true, true]);
    s.activate(GalleryAction::Switch(1));
    assert_eq!(s.switches, [true, false]);
    s.activate(GalleryAction::Chip(3));
    assert_eq!(s.chips, [false, true, false, true]);
    s.activate(GalleryAction::FabMenu);
    assert!(s.fab_open);
    s.activate(GalleryAction::FabMenu);
    assert!(!s.fab_open);
}

#[test]
fn checkbox_cycles_through_three_states() {
    let mut s = GallerySelection::new();
    let mut seen = vec![s.checks[0]];
    for _ in 0..3 {
        s.activate(GalleryAction::Check(0));
        seen.push(s.checks[0]);
    }
    assert_eq!(seen, vec![0, 1, 2, 0]);
    assert_eq!(s.checks, [0, 1, 2]);
}

#[test]
fn single_choice_groups_take_the_index() {
    let mut s = GallerySelection::new();
    s.activate(GalleryAction::Radio(2));
    s.activate(GalleryAction::Tab(1));
    s.activate(GalleryAction::Nav(3));
    s.activate(GalleryAction::Rail(2));
    s.activate(GalleryAction::Segmented(2));
    s.activate(GalleryAction::MenuItem(0));
    s.activate(GalleryAction::CarouselPage(4));
    assert_eq!((s.radio, s.tabs, s.nav, s.rail, s.segmented, s.menu_sel, s.carousel), (2, 1, 3, 2, 2, 0, 4));
    s.activate(GalleryAction::Radio(2));
    assert_eq!(s.radio, 2);
    s.activate(GalleryAction::Button(7));
    s.activate(GalleryAction::Slider);
    assert_eq!(s.switches, [true, false]);
    assert_eq!(s.checks, [0, 1, 2]);
}

#[test]
fn body_heights() {
    assert_eq!(body_height_dp(ComponentId::Button), 64);
    assert_eq!(body_height_dp(ComponentId::DatePicker), 320);
    assert_eq!(body_height_dp(ComponentId::Divider), 30);
    let total: u32 = ComponentId::ALL.iter().map(|c| body_height_dp(*c)).sum();
    assert_eq!(total, 4756);
}
