use material_geek::components::{default_shape, resting_elevation, ComponentId, FabProps, FabSize};
use material_geek::tokens::elevation::ElevationLevel;
use material_geek::tokens::shape::ShapeStyle;
use std::collections::HashSet;

#[test]
fn registry_covers_all_41() {
    assert_eq!(ComponentId::ALL.len(), 41);
    let set: HashSet<usize> = ComponentId::ALL.iter().map(|c| *c as usize).collect();
    assert_eq!(set.len(), 41, "duplicates in registry");
}

#[test]
fn elevations_match_spec_examples() {
    assert_eq!(resting_elevation(ComponentId::Dialog), ElevationLevel::L3);
    assert_eq!(resting_elevation(ComponentId::Menu), ElevationLevel::L2);
    assert_eq!(resting_elevation(ComponentId::Switch), ElevationLevel::L0);
}

#[test]
fn fab_menu_capacity_2_to_6() {
    let p = FabProps {
        size: FabSize::Medium,
        expanded: false,
        menu_open: true,
        menu_items: 4,
    };
    assert!((2..=6).contains(&p.menu_items));
}

#[test]
fn registry_order_is_declaration_order() {
    for (i, c) in ComponentId::ALL.iter().enumerate() {
        assert_eq!(*c as usize, i);
    }
}

#[test]
fn resting_levels_and_shapes() {
    assert_eq!(resting_elevation(ComponentId::Fab), ElevationLevel::L3);
    assert_eq!(resting_elevation(ComponentId::Card), ElevationLevel::L1);
    assert_eq!(resting_elevation(ComponentId::Toolbar), ElevationLevel::L2);
    for c in ComponentId::ALL {
        assert!(resting_elevation(c).dp() <= ElevationLevel::L3.dp());
        assert_ne!(default_shape(c), ShapeStyle::Square);
    }
    assert_eq!(default_shape(ComponentId::Button), ShapeStyle::Full);
    assert_eq!(default_shape(ComponentId::ExtendedFab), ShapeStyle::Large);
    assert_eq!(default_shape(ComponentId::Dialog), ShapeStyle::ExtraLarge);
    assert_eq!(default_shape(ComponentId::Snackbar), ShapeStyle::Small);
    assert_eq!(default_shape(ComponentId::Tabs), ShapeStyle::Medium);
}
