use enchanted_view::color::Color;
use enchanted_view::color_analyzer::{ColorAnalyzer, ColorAnalyzerOpenState};

#[test]
fn toggle_opens_and_closes() {
    let mut a = ColorAnalyzer::new();
    assert!(!a.is_open());
    a.toggle();
    assert_eq!(a.open, Some(ColorAnalyzerOpenState { picking_color: false }));
    assert!(!a.is_picking_color());
    a.toggle();
    assert!(!a.is_open());
}

#[test]
fn color_picker_toggles() {
    let mut a = ColorAnalyzer::new();
    a.toggle_color_picker();
    assert!(a.is_open());
    assert!(a.is_picking_color());
    a.toggle_color_picker();
    assert!(a.is_open());
    assert!(!a.is_picking_color());
}

#[test]
fn set_color_keeps_state() {
    let mut a = ColorAnalyzer::new();
    assert_eq!(a.color(), Color::from_rgba(0, 0, 0, 0));
    a.toggle();
    a.set_color(Color::from_rgba(1, 2, 3, 4));
    assert_eq!(a.color(), Color::from_rgba(1, 2, 3, 4));
    assert!(a.is_open());
}
