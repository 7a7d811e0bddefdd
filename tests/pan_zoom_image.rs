use enchanted_view::color::Color;
use enchanted_view::geometry::{Rect, Vec2, SCALE_ONE, UNITS_PER_PIXEL};
use enchanted_view::pan_zoom_image::{mask_clicks, rect_contains_pointer, FrameInput, PanZoomImage, MAX_SCALE};
use enchanted_view::painter::rect_stroke_cropped;

const U: i64 = UNITS_PER_PIXEL;

fn colors() -> [Color; 2] {
    [Color::from_rgba(255, 255, 255, 255), Color::from_rgba(211, 211, 211, 255)]
}

fn viewport(w: i64, h: i64) -> Rect {
    Rect { min: Vec2::new(0, 0), max: Vec2::new(w * U, h * U) }
}

fn idle(rect: Rect) -> FrameInput {
    FrameInput {
        rect,
        latest_pointer: Vec2::new(0, 0),
        interact_pointer: None,
        dragged: false,
        drag_delta: Vec2::new(0, 0),
        hovered: false,
        scroll_y: 0,
        pointer_on_layer: true,
        clicked: vec![false, false, false, false, false],
    }
}

#[test]
fn fit_then_original_scale() {
    let mut view = PanZoomImage::new(true, true, 800, 600, colors());
    let rect = viewport(400, 300);
    let out = view.update(&idle(rect), false, false, 0, false);
    assert_eq!(view.scale(), SCALE_ONE / 2);
    assert_eq!(out.image_rect, rect);
    view.zoom_to_fit();
    assert_eq!(view.scale(), SCALE_ONE / 2);
    view.zoom_to_original();
    assert_eq!(view.scale(), SCALE_ONE);
    let out = view.update(&idle(rect), false, false, 0, false);
    assert_eq!(view.scale(), SCALE_ONE);
    // the image is twice the viewport: it covers it and can be panned
    assert_eq!(out.image_rect, rect);
    let mut drag = idle(rect);
    drag.dragged = true;
    drag.drag_delta = Vec2::new(-50 * U, 0);
    let before = view.offset();
    let out = view.update(&drag, false, false, 0, false);
    assert!(view.offset().x > before.x);
    assert_eq!(out.image_rect, rect);
}

#[test]
fn quarter_turn_swaps_image_size() {
    let mut view = PanZoomImage::new(true, true, 800, 600, colors());
    view.update(&idle(viewport(400, 300)), false, false, 1, false);
    assert_eq!(view.image_size(), Vec2::new(600 * U, 800 * U));
}

#[test]
fn top_left_of_image_is_pixel_zero() {
    let mut view = PanZoomImage::new(true, true, 100, 100, colors());
    let rect = viewport(400, 300);
    let out = view.update(&idle(rect), false, false, 0, false);
    assert_eq!(view.scale(), 3 * SCALE_ONE);
    assert!(out.image_rect.min.x > rect.min.x);
    assert_eq!(view.get_image_pixel_coords(out.image_rect.min), (0, 0));
    let far = Vec2::new(out.image_rect.max.x - 1, out.image_rect.max.y - 1);
    assert_eq!(view.get_image_pixel_coords(far), (99, 99));
}

#[test]
fn small_image_is_centered() {
    let mut view = PanZoomImage::new(true, true, 100, 100, colors());
    let rect = viewport(400, 300);
    let out = view.update(&idle(rect), false, false, 0, false);
    let left_gap = out.image_rect.min.x - rect.min.x;
    let right_gap = rect.max.x - out.image_rect.max.x;
    assert!((left_gap - right_gap).abs() <= 8);
    assert_eq!(out.image_rect.min.y, rect.min.y);
    assert_eq!(out.image_rect.max.y, rect.max.y);
}

#[test]
fn screen_world_round_trip() {
    let mut view = PanZoomImage::new(false, false, 640, 480, colors());
    view.update(&idle(viewport(300, 200)), false, false, 0, false);
    view.zoom_in();
    let scale = view.scale() as i128;
    for p in [Vec2::new(0, 0), Vec2::new(123 * U + 7, 45 * U + 3), Vec2::new(-9 * U, 500 * U)] {
        let (sx, sy) = view.world_to_screen(p);
        let (wx, wy) = view.screen_to_world(Vec2::new(sx as i64, sy as i64));
        assert!(wx <= p.x as i128 && (p.x as i128 - wx) * scale < SCALE_ONE as i128 + scale);
        assert!(wy <= p.y as i128 && (p.y as i128 - wy) * scale < SCALE_ONE as i128 + scale);
    }
}

#[test]
fn zoom_keeps_anchor() {
    let mut view = PanZoomImage::new(false, false, 640, 480, colors());
    view.update(&idle(viewport(300, 200)), false, false, 0, false);
    let r = view.last_image_rect();
    let anchor = Vec2::new((r.min.x + r.max.x) / 2, (r.min.y + r.max.y) / 2);
    let before = view.screen_to_world(anchor);
    view.zoom_in();
    assert_eq!(view.screen_to_world(anchor), before);
    view.zoom_in();
    assert_eq!(view.screen_to_world(anchor), before);
    view.zoom_out();
    assert_eq!(view.screen_to_world(anchor), before);
}

#[test]
fn scroll_zoom_keeps_pointer_anchor() {
    let mut view = PanZoomImage::new(false, false, 640, 480, colors());
    let rect = viewport(300, 200);
    view.update(&idle(rect), false, false, 0, false);
    let pointer = Vec2::new(40 * U, 70 * U);
    let before = view.screen_to_world(pointer);
    let mut scroll = idle(rect);
    scroll.hovered = true;
    scroll.scroll_y = 1;
    scroll.latest_pointer = pointer;
    let old_scale = view.scale();
    view.update(&scroll, false, false, 0, false);
    assert_eq!(view.scale(), old_scale + (old_scale + 9) / 10);
    assert_eq!(view.screen_to_world(pointer), before);
}

#[test]
fn scale_stays_within_bounds() {
    let mut view = PanZoomImage::new(true, true, 50, 40, colors());
    let rects = [viewport(400, 300), viewport(20, 10), viewport(1000, 30), viewport(0, 0), viewport(400, 300)];
    for rect in rects {
        let mut input = idle(rect);
        input.hovered = true;
        input.scroll_y = 1;
        for _ in 0..60 {
            view.update(&input, false, false, 0, false);
            assert!(view.min_scale() <= view.scale() && view.scale() <= view.max_scale());
        }
        input.scroll_y = -1;
        input.dragged = true;
        input.drag_delta = Vec2::new(13 * U, -7 * U);
        for _ in 0..60 {
            view.update(&input, false, false, 0, false);
            assert!(view.min_scale() <= view.scale() && view.scale() <= view.max_scale());
        }
    }
    assert_eq!(view.max_scale(), MAX_SCALE);
    assert!(!view.can_zoom_out() || view.scale() > view.min_scale());
}

#[test]
fn clicks_outside_image_are_dropped() {
    let mut view = PanZoomImage::new(true, true, 100, 100, colors());
    let rect = viewport(400, 300);
    let mut input = idle(rect);
    input.clicked = vec![true, false, true];
    input.interact_pointer = Some(Vec2::new(5 * U, 150 * U));
    let out = view.update(&input, false, false, 0, false);
    assert!(!out.hovered);
    assert_eq!(out.clicked, vec![false, false, false]);
    input.interact_pointer = Some(Vec2::new(200 * U, 150 * U));
    let out = view.update(&input, false, false, 0, false);
    assert!(out.hovered);
    assert_eq!(out.clicked, vec![true, false, true]);
    input.pointer_on_layer = false;
    let out = view.update(&input, false, false, 0, false);
    assert!(!out.hovered);
    assert_eq!(out.clicked, vec![false, false, false]);
}

#[test]
fn checkerboard_made_only_on_change() {
    let mut view = PanZoomImage::new(true, true, 100, 100, colors());
    let rect = viewport(400, 300);
    let out = view.update(&idle(rect), false, false, 0, false);
    assert!(out.checkerboard_changed);
    assert!(!view.checkerboard().is_empty());
    let out = view.update(&idle(rect), false, false, 0, false);
    assert!(!out.checkerboard_changed);
    let other = [Color::from_rgba(0, 0, 0, 255), Color::from_rgba(50, 50, 50, 255)];
    view.change_checkerboard_color(other);
    let out = view.update(&idle(rect), false, false, 0, false);
    assert!(out.checkerboard_changed);
    assert_eq!(view.checkerboard()[0].color, other[0]);
}

#[test]
fn pixel_highlight_depends_on_scale() {
    let mut view = PanZoomImage::new(true, true, 10, 10, colors());
    let rect = viewport(400, 300);
    let mut input = idle(rect);
    input.interact_pointer = Some(Vec2::new(200 * U, 150 * U));
    let out = view.update(&input, false, false, 0, true);
    // fitted at a scale of 30: three outlines around a 30 point square
    assert_eq!(view.scale(), 30 * SCALE_ONE);
    assert_eq!(out.highlight.len(), 3);
    let cell = out.highlight[0].rect;
    assert_eq!(cell.max.x - cell.min.x, 30 * U);
    assert!(cell.min.x <= 200 * U && 200 * U < cell.max.x);
    assert_eq!(out.highlight[1].rect.min.x, cell.min.x + 2 * U);
    let segments = rect_stroke_cropped(cell, out.image_rect, out.highlight[0].width);
    assert!(!segments.is_empty());
    let out = view.update(&input, false, false, 0, false);
    assert!(out.highlight.is_empty());
    let mut middle = PanZoomImage::new(true, true, 50, 50, colors());
    let out = middle.update(&input, false, false, 0, true);
    // fitted at a scale of 6: one white outline
    assert_eq!(middle.scale(), 6 * SCALE_ONE);
    assert_eq!(out.highlight.len(), 1);
    assert_eq!(out.highlight[0].color, Color::from_rgba(255, 255, 255, 255));
    assert_eq!(out.highlight[0].width, U);
    let mut small = PanZoomImage::new(true, true, 200, 200, colors());
    let out = small.update(&input, false, false, 0, true);
    assert!(out.hovered);
    assert!(out.highlight.is_empty());
}

#[test]
fn uv_covers_visible_part_only() {
    let mut view = PanZoomImage::new(true, true, 800, 600, colors());
    let rect = viewport(400, 300);
    view.update(&idle(rect), false, false, 0, false);
    view.zoom_to_original();
    let out = view.update(&idle(rect), false, false, 0, false);
    let u0 = out.uv.left_top.x;
    let u1 = out.uv.right_top.x;
    assert!(u0 >= 0 && u1 <= 65536);
    // half of the image shows: about half of the texture is sampled
    assert!(((u1 - u0) - 32768).abs() <= 64);
}

#[test]
fn pointer_hit_test() {
    let r = Rect { min: Vec2::new(10, 10), max: Vec2::new(20, 30) };
    assert!(rect_contains_pointer(r, Some(Vec2::new(10, 30)), true));
    assert!(!rect_contains_pointer(r, Some(Vec2::new(21, 15)), true));
    assert!(!rect_contains_pointer(r, Some(Vec2::new(15, 15)), false));
    assert!(!rect_contains_pointer(r, None, true));
    let empty = Rect { min: Vec2::new(10, 10), max: Vec2::new(10, 30) };
    assert!(!rect_contains_pointer(empty, Some(Vec2::new(10, 15)), true));
    assert_eq!(mask_clicks(&vec![true, false], false), vec![false, false]);
    assert_eq!(mask_clicks(&vec![true, false], true), vec![true, false]);
}

#[test]
fn zoom_steps_multiply_and_divide_by_eleven_tenths() {
    let mut view = PanZoomImage::new(true, true, 800, 600, colors());
    view.update(&idle(viewport(400, 300)), false, false, 0, false);
    view.zoom_to_original();
    assert_eq!(view.scale(), SCALE_ONE);
    view.zoom_out();
    assert_eq!(view.scale(), SCALE_ONE * 10 / 11);
    view.zoom_to_original();
    view.zoom_in();
    assert_eq!(view.scale(), SCALE_ONE + (SCALE_ONE + 9) / 10);
    // zooming out stops at the smallest scale
    for _ in 0..20 {
        view.zoom_out();
    }
    assert_eq!(view.scale(), view.min_scale());
    assert!(!view.can_zoom_out());
}

#[test]
fn inverted_viewport_is_taken_as_empty() {
    let mut view = PanZoomImage::new(true, true, 800, 600, colors());
    let inverted = Rect { min: Vec2::new(100 * U, 50 * U), max: Vec2::new(40 * U, 300 * U) };
    let out = view.update(&idle(inverted), false, false, 0, false);
    assert_eq!(out.image_rect.min.x, 100 * U);
    assert_eq!(out.image_rect.max.x, 100 * U);
    assert!(!out.hovered);
    assert_eq!(view.min_scale(), 1);
    assert!(view.min_scale() <= view.scale() && view.scale() <= view.max_scale());
    // the next frame with a proper viewport fits the image again
    view.zoom_to_fit();
    let out = view.update(&idle(viewport(400, 300)), false, false, 0, false);
    assert_eq!(out.image_rect, viewport(400, 300));
}
