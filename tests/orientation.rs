use enchanted_view::geometry::{Rect, Vec2, UV_ONE};
use enchanted_view::orientation;
use enchanted_view::orientation::{logical_size, oriented_uv};

fn as_egui(v: Vec2) -> egui::Vec2 {
    egui::vec2(v.x as f32, v.y as f32)
}

#[test]
fn rotate90_around() {
    let vec = egui::vec2(10.0, 4.0);
    let v = Vec2::new(10, 4);
    let origin = Vec2::new(0, 0);
    assert_eq!(vec, as_egui(orientation::rotate90_around(v, origin, 0)));
    assert_eq!(vec.rot90(), as_egui(orientation::rotate90_around(v, origin, 1)));
    assert_eq!(vec.rot90().rot90(), as_egui(orientation::rotate90_around(v, origin, 2)));
    assert_eq!(vec.rot90().rot90().rot90(), as_egui(orientation::rotate90_around(v, origin, 3)));
    assert_eq!(vec.rot90().rot90().rot90().rot90(), as_egui(orientation::rotate90_around(v, origin, 4)));
    assert_eq!(vec, as_egui(orientation::rotate90_around(v, origin, 4)));
}

#[test]
fn rotation_period_and_composition() {
    let v = Vec2::new(7, -3);
    let anchor = Vec2::new(5, 5);
    for k in 0..8usize {
        assert_eq!(orientation::rotate90_around(v, anchor, k + 4), orientation::rotate90_around(v, anchor, k));
        let mut stepped = v;
        for _ in 0..k {
            stepped = orientation::rotate90_around(stepped, anchor, 1);
        }
        assert_eq!(stepped, orientation::rotate90_around(v, anchor, k));
    }
    assert_eq!(orientation::rotate90_around(v, anchor, 1), Vec2::new(-3, 3));
    assert_eq!(orientation::rotate90_around(v, anchor, 2), Vec2::new(3, 13));
}

#[test]
fn quarter_turn_swaps_logical_size() {
    let texture = Vec2::new(800, 600);
    assert_eq!(logical_size(texture, 1), Vec2::new(600, 800));
    assert_eq!(logical_size(texture, 2), Vec2::new(800, 600));
    assert_eq!(logical_size(texture, 3), Vec2::new(600, 800));
    assert_eq!(logical_size(texture, 0), texture);
}

#[test]
fn horizontal_flip_mirrors_u() {
    let uv = Rect { min: Vec2::new(0, 0), max: Vec2::new(UV_ONE, UV_ONE) };
    let q = oriented_uv(uv, true, false, 0);
    assert_eq!(q.left_top, Vec2::new(UV_ONE, 0));
    assert_eq!(q.right_top, Vec2::new(0, 0));
    assert_eq!(q.right_bottom, Vec2::new(0, UV_ONE));
    assert_eq!(q.left_bottom, Vec2::new(UV_ONE, UV_ONE));
}

#[test]
fn quarter_turn_of_full_texture() {
    let uv = Rect { min: Vec2::new(0, 0), max: Vec2::new(UV_ONE, UV_ONE) };
    let q = oriented_uv(uv, false, false, 1);
    assert_eq!(q.left_top, Vec2::new(0, UV_ONE));
    assert_eq!(q.right_top, Vec2::new(0, 0));
    assert_eq!(q.right_bottom, Vec2::new(UV_ONE, 0));
    assert_eq!(q.left_bottom, Vec2::new(UV_ONE, UV_ONE));
    let flipped_both = oriented_uv(uv, true, true, 0);
    assert_eq!(flipped_both.left_top, Vec2::new(UV_ONE, UV_ONE));
    assert_eq!(flipped_both.right_bottom, Vec2::new(0, 0));
}
