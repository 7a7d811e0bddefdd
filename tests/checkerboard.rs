use enchanted_view::checkerboard_pattern::generate_checkerboard_pattern;
use enchanted_view::color::Color;
use enchanted_view::geometry::{Rect, Vec2};
use enchanted_view::painter::rect_stroke_cropped;

fn colors() -> [Color; 2] {
    [Color::from_rgba(255, 255, 255, 255), Color::from_rgba(211, 211, 211, 255)]
}

#[test]
fn checkerboard_tiles_and_clips() {
    let area = Rect { min: Vec2::new(100, 50), max: Vec2::new(120, 60) };
    let tiles = generate_checkerboard_pattern(area, 8, colors());
    assert_eq!(tiles.len(), 3 * 2);
    for (i, tile) in tiles.iter().enumerate() {
        let row = (i / 3) as i64;
        let column = (i % 3) as i64;
        assert_eq!(tile.rect.min, Vec2::new(100 + column * 8, 50 + row * 8));
        assert!(tile.rect.max.x <= area.max.x && tile.rect.max.y <= area.max.y);
        assert_eq!(tile.color, colors()[((row + column) % 2) as usize]);
    }
    assert_eq!(tiles[2].rect.max, Vec2::new(120, 58));
    assert_eq!(tiles[5].rect.max, Vec2::new(120, 60));
    assert_eq!(tiles[0].rect.max, Vec2::new(108, 58));
}

#[test]
fn checkerboard_of_empty_area() {
    let area = Rect { min: Vec2::new(10, 10), max: Vec2::new(10, 40) };
    assert!(generate_checkerboard_pattern(area, 8, colors()).is_empty());
    let inverted = Rect { min: Vec2::new(10, 10), max: Vec2::new(0, 40) };
    assert!(generate_checkerboard_pattern(inverted, 8, colors()).is_empty());
}

#[test]
fn checkerboard_exact_fit() {
    let area = Rect { min: Vec2::new(0, 0), max: Vec2::new(16, 16) };
    let tiles = generate_checkerboard_pattern(area, 8, colors());
    assert_eq!(tiles.len(), 4);
    assert_eq!(tiles[3].rect, Rect { min: Vec2::new(8, 8), max: Vec2::new(16, 16) });
    assert_eq!(tiles[3].color, colors()[0]);
    assert_eq!(tiles[1].color, colors()[1]);
}

#[test]
fn stroke_inside_bounds_has_four_sides() {
    let bounds = Rect { min: Vec2::new(0, 0), max: Vec2::new(100, 100) };
    let rect = Rect { min: Vec2::new(10, 10), max: Vec2::new(20, 20) };
    let segments = rect_stroke_cropped(rect, bounds, 4);
    assert_eq!(segments.len(), 4);
    assert_eq!(segments[0].from, Vec2::new(8, 8));
    assert_eq!(segments[0].to, Vec2::new(22, 8));
    assert!(segments.iter().all(|s| s.width == 4));
}

#[test]
fn stroke_on_bounds_edge_is_cut() {
    let bounds = Rect { min: Vec2::new(0, 0), max: Vec2::new(100, 100) };
    let rect = Rect { min: Vec2::new(0, 1), max: Vec2::new(20, 20) };
    let segments = rect_stroke_cropped(rect, bounds, 4);
    // the left side has no room; the top side has one unit
    assert_eq!(segments.len(), 3);
    assert_eq!(segments[0].width, 1);
    assert_eq!(segments[0].from, Vec2::new(0, 0));
}
