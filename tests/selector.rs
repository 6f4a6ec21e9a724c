use falling_sand::geometry::{Dim, Vec2, SUBPIXELS};
use falling_sand::particle::{Color, ParticleKind, BACKGROUND_COLOR};
use falling_sand::sandbox::Sandbox;
use falling_sand::selector::{ConfigError, ControlStyle, ParticleSelector, SelectorGrid};

fn px(x: i64, y: i64) -> Vec2 {
    Vec2::new(x * SUBPIXELS, y * SUBPIXELS)
}

#[test]
fn grid_lays_out_a_column() {
    let g = SelectorGrid::new(1040, 40, vec![ParticleKind::Sand, ParticleKind::Wall]);
    assert_eq!(g.dim, Dim::new(1050, 40, 830, 1000));
    let v: Vec<&ParticleSelector> = g.iter().collect();
    assert_eq!(v.len(), 2);
    assert_eq!(*v[0], ParticleSelector::new(1050, 40, ParticleKind::Sand));
    assert_eq!(*v[1], ParticleSelector::new(1050, 135, ParticleKind::Wall));
    assert_eq!(v[1].dim, Dim::new(1050, 135, 240, 80));
}

#[test]
fn grid_starts_a_new_column_when_full() {
    // Panel height 1080 - 900 - 40 = 140: after the first control the next
    // one would start at 995, beyond it.
    let g = SelectorGrid::new(0, 900, vec![ParticleKind::Sand, ParticleKind::Wall, ParticleKind::Sand]);
    assert_eq!(g.selectors[0].dim, Dim::new(10, 900, 240, 80));
    assert_eq!(g.selectors[1].dim, Dim::new(260, 900, 240, 80));
    assert_eq!(g.selectors[2].dim, Dim::new(510, 900, 240, 80));
}

#[test]
fn empty_grid_hits_nothing() {
    let g = SelectorGrid::new(0, 0, vec![]);
    assert!(g.selectors.is_empty());
    assert_eq!(g.hit_test(px(10, 10)), None);
}

#[test]
fn hit_test_is_exclusive() {
    let g = SelectorGrid::new(1040, 40, vec![ParticleKind::Sand, ParticleKind::Wall]);
    assert_eq!(g.hit_test(px(1100, 50)), Some(ParticleKind::Sand));
    assert_eq!(g.hit_test(px(1100, 200)), Some(ParticleKind::Wall));
    // The gap between the two boxes.
    assert_eq!(g.hit_test(px(1100, 125)), None);
    // Corners count.
    assert_eq!(g.hit_test(px(1050, 40)), Some(ParticleKind::Sand));
    assert_eq!(g.hit_test(px(1290, 215)), Some(ParticleKind::Wall));
    assert_eq!(g.hit_test(px(1291, 215)), None);
}

#[test]
fn overlapping_controls_first_wins() {
    let mut g = SelectorGrid::new(0, 0, vec![ParticleKind::Wall, ParticleKind::Sand]);
    g.selectors[1].dim = g.selectors[0].dim;
    assert_eq!(g.hit_test(px(20, 10)), Some(ParticleKind::Wall));
}

#[test]
fn selector_contains_its_box() {
    let s = ParticleSelector::new(10, 20, ParticleKind::Sand);
    assert!(s.in_boundary(px(250, 100)));
    assert!(!s.in_boundary(px(251, 100)));
}

#[test]
fn label_is_centred() {
    let s = ParticleSelector::new(1050, 40, ParticleKind::Sand);
    assert_eq!(s.label_position(100), Ok((1120, 50)));
    assert_eq!(s.label_position(239), Ok((1050, 50)));
}

#[test]
fn label_too_wide_is_an_error() {
    let s = ParticleSelector::new(0, 0, ParticleKind::Wall);
    assert_eq!(s.label_position(240), Err(ConfigError::LabelTooWide));
}

#[test]
fn label_too_tall_is_an_error() {
    let mut s = ParticleSelector::new(0, 0, ParticleKind::Wall);
    s.dim.height = 60;
    assert_eq!(s.label_position(10), Err(ConfigError::LabelTooTall));
    s.dim.width = 5;
    assert_eq!(s.label_position(10), Err(ConfigError::LabelTooWide));
}

#[test]
fn selected_control_is_highlighted() {
    let s = ParticleSelector::new(0, 0, ParticleKind::Wall);
    assert_eq!(
        s.style(ParticleKind::Wall),
        ControlStyle { filled: true, box_color: Color::Gray, text_color: BACKGROUND_COLOR }
    );
    assert_eq!(
        s.style(ParticleKind::Sand),
        ControlStyle { filled: false, box_color: Color::Gray, text_color: Color::Gray }
    );
}

#[test]
fn catalog_entries() {
    assert_eq!(ParticleKind::Sand.name(), "Sand");
    assert_eq!(ParticleKind::Wall.name(), "Wall");
    assert_eq!(ParticleKind::Sand.color().rgba(), (244, 164, 96, 255));
    assert_eq!(ParticleKind::Wall.color().rgba(), (128, 128, 128, 255));
    assert_eq!(BACKGROUND_COLOR.rgba(), (0, 0, 0, 255));
    assert_eq!(ParticleKind::Sand.size(), (2, 2));
    assert_eq!(ParticleKind::Wall.size(), (4, 4));
    assert_eq!(ParticleKind::Wall.initial_velocity(), Vec2::new(0, 0));
    assert_eq!(ParticleKind::default(), ParticleKind::Sand);
}

#[test]
fn sandbox_panel_sits_right_of_region() {
    let sb = Sandbox::new(40, 40, 1000, 1000);
    assert_eq!(sb.dim, Dim::new(40, 40, 1000, 1000));
    assert_eq!(sb.selectors.dim, Dim::new(1050, 40, 830, 1000));
    assert_eq!(sb.selectors.selectors.len(), 2);
    assert_eq!(sb.selectors.selectors[0].kind, ParticleKind::Sand);
    assert_eq!(sb.selectors.selectors[1].kind, ParticleKind::Wall);
}

#[test]
fn grid_accepts_a_negative_anchor() {
    let g = SelectorGrid::new(-100, -20, vec![ParticleKind::Sand, ParticleKind::Wall]);
    assert_eq!(g.dim, Dim::new(-90, -20, 1970, 1060));
    assert_eq!(g.selectors[0].dim, Dim::new(-90, -20, 240, 80));
    assert_eq!(g.selectors[1].dim, Dim::new(-90, 75, 240, 80));
    assert_eq!(g.hit_test(px(-50, 70)), None);
    assert_eq!(g.hit_test(px(-50, 80)), Some(ParticleKind::Wall));
}
