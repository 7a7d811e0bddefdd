//! The pan/zoom/rotate/flip viewport that shows one image.
//!
//! World space is the image's own space: the image's top left corner sits at
//! the viewport's top left corner (`last_rect.min`), and one image pixel is
//! [`UNITS_PER_PIXEL`] units wide. A world point `p` appears on screen at
//! `(p - offset) * scale`.
use vstd::prelude::*;
use crate::checkerboard_pattern::{generate_checkerboard_pattern, is_checkerboard, Tile};
use crate::color::Color;
use crate::geometry::{
    clamp_i128, clamp_spec, coord_ok, floor_div, lemma_floor_div_bounds, Rect, Vec2, COORD_LIMIT, SCALE_ONE,
    UNITS_PER_PIXEL, UV_ONE,
};
use crate::orientation::{is_oriented, logical_size, logical_size_spec, oriented_uv, Quad};

verus! {

/// The largest scale factor, `32.0`.
pub const MAX_SCALE: i64 = 2097152;

/// Bound on the magnitude of the view offset.
pub const OFFSET_LIMIT: i64 = 1152921504606846976;

/// Edge of one checkerboard tile: eight points.
pub const CHECKER_SIZE: i64 = 512;

/// Largest texture edge, in pixels.
pub const MAX_TEXTURE_EDGE: u32 = 16777216;

/// World coordinate of screen coordinate `screen`.
pub open spec fn screen_to_world_spec(offset: int, scale: int, screen: int) -> int {
    screen * SCALE_ONE / scale + offset
}

/// Screen coordinate of world coordinate `world`.
pub open spec fn world_to_screen_spec(offset: int, scale: int, world: int) -> int {
    (world - offset) * scale / (SCALE_ONE as int)
}

/// The scale at which an image of `image_size` fills `rect` on one axis and
/// fits on the other.
pub open spec fn fit_scale_spec(rect: Rect, image_size: Vec2) -> int {
    let sx = (rect.max.x - rect.min.x) * SCALE_ONE / (image_size.x as int);
    let sy = (rect.max.y - rect.min.y) * SCALE_ONE / (image_size.y as int);
    if sx < sy {
        sx
    } else {
        sy
    }
}

/// The smallest scale allowed in `rect`: the fit scale, but never above `1.0`
/// and never below one fixed-point step.
pub open spec fn min_scale_spec(rect: Rect, image_size: Vec2) -> int {
    let f = fit_scale_spec(rect, image_size);
    if f > SCALE_ONE {
        SCALE_ONE as int
    } else if f < 1 {
        1
    } else {
        f
    }
}

/// The offset after a change of scale from `old_scale` to `new_scale` that
/// keeps the world point under screen coordinate `anchor` in place.
pub open spec fn zoomed_offset(offset: int, old_scale: int, new_scale: int, anchor: int) -> int {
    offset + screen_to_world_spec(offset, old_scale, anchor) - screen_to_world_spec(
        offset,
        new_scale,
        anchor,
    )
}

/// `v` limited to the range that an offset can take.
pub open spec fn saturated(v: int) -> int {
    clamp_spec(v, -OFFSET_LIMIT, OFFSET_LIMIT as int)
}

/// Mapping a world point to the screen and back lands on the point itself, or
/// at most one screen unit's worth of world units before it.
pub proof fn lemma_round_trip(offset: int, scale: int, p: int)
    requires
        scale >= 1,
    ensures
        ({
            let r = screen_to_world_spec(offset, scale, world_to_screen_spec(offset, scale, p));
            &&& r <= p
            &&& (p - r) * scale < SCALE_ONE + scale
        }),
{
    let a = p - offset;
    let q = a * scale / (SCALE_ONE as int);
    let b = q * SCALE_ONE / scale;
    vstd::arithmetic::div_mod::lemma_fundamental_div_mod(a * scale, SCALE_ONE as int);
    vstd::arithmetic::div_mod::lemma_fundamental_div_mod(q * SCALE_ONE, scale);
    let m1 = (a * scale) % (SCALE_ONE as int);
    let m2 = (q * SCALE_ONE) % scale;
    assert(b <= a && (a - b) * scale < SCALE_ONE + scale) by (nonlinear_arith)
        requires
            a * scale == SCALE_ONE * q + m1,
            0 <= m1 < SCALE_ONE,
            q * SCALE_ONE == scale * b + m2,
            0 <= m2 < scale,
            scale >= 1,
    ;
}

/// A zoom keeps the world point under the anchor where it was, whenever the
/// new offset is within range.
pub proof fn lemma_zoom_keeps_anchor(offset: int, old_scale: int, new_scale: int, anchor: int)
    requires
        old_scale >= 1,
        new_scale >= 1,
    ensures
        screen_to_world_spec(zoomed_offset(offset, old_scale, new_scale, anchor), new_scale, anchor)
            == screen_to_world_spec(offset, old_scale, anchor),
{
}

/// `screen_to_world_spec` for machine integers.
fn screen_to_world_axis(offset: i64, scale: i64, screen: i128) -> (r: i128)
    requires
        scale >= 1,
        -OFFSET_LIMIT <= offset <= OFFSET_LIMIT,
        -OFFSET_LIMIT <= screen <= OFFSET_LIMIT,
    ensures
        r == screen_to_world_spec(offset as int, scale as int, screen as int),
        -OFFSET_LIMIT * SCALE_ONE - OFFSET_LIMIT <= r <= OFFSET_LIMIT * SCALE_ONE + OFFSET_LIMIT,
        coord_ok(screen as int) ==> -2 * OFFSET_LIMIT <= r <= 2 * OFFSET_LIMIT,
{
    proof {
        assert(-OFFSET_LIMIT * SCALE_ONE <= screen * SCALE_ONE <= OFFSET_LIMIT * SCALE_ONE) by (nonlinear_arith)
            requires
                -OFFSET_LIMIT <= screen <= OFFSET_LIMIT,
        ;
    }
    proof {
        lemma_floor_div_bounds(screen * SCALE_ONE, scale as int);
        if coord_ok(screen as int) {
            assert(-COORD_LIMIT * SCALE_ONE <= screen * SCALE_ONE <= COORD_LIMIT * SCALE_ONE) by (nonlinear_arith)
                requires
                    coord_ok(screen as int),
            ;
        }
    }
    floor_div(screen * (SCALE_ONE as i128), scale as i128) + offset as i128
}

/// `world_to_screen_spec` for machine integers.
fn world_to_screen_axis(offset: i64, scale: i64, world: i128) -> (r: i128)
    requires
        1 <= scale <= MAX_SCALE,
        -OFFSET_LIMIT <= offset <= OFFSET_LIMIT,
        -4 * OFFSET_LIMIT <= world <= 4 * OFFSET_LIMIT,
    ensures
        r == world_to_screen_spec(offset as int, scale as int, world as int),
        screen_ok(r as int),
{
    let d = world - offset as i128;
    proof {
        assert(-5 * OFFSET_LIMIT * MAX_SCALE <= d * scale <= 5 * OFFSET_LIMIT * MAX_SCALE) by (nonlinear_arith)
            requires
                -5 * OFFSET_LIMIT <= d <= 5 * OFFSET_LIMIT,
                1 <= scale <= MAX_SCALE,
        ;
    }
    proof {
        lemma_floor_div_bounds(d * scale, SCALE_ONE as int);
    }
    floor_div(d * (scale as i128), SCALE_ONE as i128)
}

/// `v` limited to the offset range.
fn saturate(v: i128) -> (r: i64)
    ensures
        r == saturated(v as int),
{
    clamp_i128(v, -(OFFSET_LIMIT as i128), OFFSET_LIMIT as i128) as i64
}

/// What the view reads from the user interface on one frame.
#[derive(Clone, Debug)]
pub struct FrameInput {
    /// The viewport: the area given to the view on this frame.
    pub rect: Rect,
    /// The latest pointer position, or the origin when there is none.
    pub latest_pointer: Vec2,
    /// The pointer position used for interaction, if any.
    pub interact_pointer: Option<Vec2>,
    /// The viewport is being dragged.
    pub dragged: bool,
    /// How far it was dragged since the last frame.
    pub drag_delta: Vec2,
    /// The pointer is over the viewport.
    pub hovered: bool,
    /// Vertical scroll: above zero zooms in, below zero zooms out.
    pub scroll_y: i64,
    /// No other layer covers the interaction pointer.
    pub pointer_on_layer: bool,
    /// Clicks on the viewport, one entry per pointer button.
    pub clicked: Vec<bool>,
}

/// What the view draws and reports on one frame.
#[derive(Clone, Debug)]
pub struct FrameOutput {
    /// The visible part of the image on screen.
    pub image_rect: Rect,
    /// Texture coordinates for the corners of `image_rect`.
    pub uv: Quad,
    /// The checkerboard was made anew on this frame.
    pub checkerboard_changed: bool,
    /// The pointer is over the visible image.
    pub hovered: bool,
    /// Clicks that landed on the visible image, one entry per pointer button.
    pub clicked: Vec<bool>,
    /// Outlines that mark the pixel under the pointer.
    pub highlight: Vec<Outline>,
}

/// `r` with a negative extent on an axis taken as an empty one: its far
/// edge is moved up to its near edge.
pub open spec fn normalized_rect(r: Rect) -> Rect {
    Rect {
        min: r.min,
        max: Vec2 {
            x: if r.max.x < r.min.x { r.min.x } else { r.max.x },
            y: if r.max.y < r.min.y { r.min.y } else { r.max.y },
        },
    }
}

/// The rectangle with a negative extent taken as an empty one.
pub fn normalize_rect(r: Rect) -> (n: Rect)
    ensures
        n == normalized_rect(r),
{
    Rect {
        min: r.min,
        max: Vec2 {
            x: if r.max.x < r.min.x { r.min.x } else { r.max.x },
            y: if r.max.y < r.min.y { r.min.y } else { r.max.y },
        },
    }
}

/// The input's coordinates are within range.
pub open spec fn input_ok(input: &FrameInput) -> bool {
    &&& input.rect.in_bounds()
    &&& input.latest_pointer.in_bounds()
    &&& input.drag_delta.in_bounds()
    &&& match input.interact_pointer {
        Some(p) => p.in_bounds(),
        None => true,
    }
}

/// The visible image on screen: the image's rectangle limited to `rect`.
pub open spec fn image_rect_spec(offset: Vec2, scale: int, rect: Rect, image_size: Vec2) -> Rect {
    let min_x = world_to_screen_spec(offset.x as int, scale, rect.min.x as int);
    let min_y = world_to_screen_spec(offset.y as int, scale, rect.min.y as int);
    let max_x = world_to_screen_spec(offset.x as int, scale, rect.min.x + image_size.x);
    let max_y = world_to_screen_spec(offset.y as int, scale, rect.min.y + image_size.y);
    Rect {
        min: Vec2 {
            x: clamp_spec(min_x, rect.min.x as int, rect.max.x as int) as i64,
            y: clamp_spec(min_y, rect.min.y as int, rect.max.y as int) as i64,
        },
        max: Vec2 {
            x: clamp_spec(max_x, rect.min.x as int, rect.max.x as int) as i64,
            y: clamp_spec(max_y, rect.min.y as int, rect.max.y as int) as i64,
        },
    }
}

/// The visible part of the texture, before flips and turns.
pub open spec fn clipped_uv_spec(offset: Vec2, scale: int, rect: Rect, image_size: Vec2) -> Rect {
    let min_x = world_to_screen_spec(offset.x as int, scale, rect.min.x as int);
    let min_y = world_to_screen_spec(offset.y as int, scale, rect.min.y as int);
    let max_x = world_to_screen_spec(offset.x as int, scale, rect.min.x + image_size.x);
    let max_y = world_to_screen_spec(offset.y as int, scale, rect.min.y + image_size.y);
    Rect {
        min: Vec2 {
            x: uv_min_spec(min_x, rect.min.x as int, scale, image_size.x as int) as i64,
            y: uv_min_spec(min_y, rect.min.y as int, scale, image_size.y as int) as i64,
        },
        max: Vec2 {
            x: uv_max_spec(max_x, rect.max.x as int, scale, image_size.x as int) as i64,
            y: uv_max_spec(max_y, rect.max.y as int, scale, image_size.y as int) as i64,
        },
    }
}

/// The offset on one axis once the policies ran: centred where the image is
/// smaller than the viewport and centring is on, else constrained where that
/// is on, else unchanged.
pub open spec fn policy_offset(
    offset: int,
    scale: int,
    rect_min: int,
    rect_max: int,
    length: int,
    center: bool,
    constrain: bool,
) -> int {
    if center && free_space(scale, rect_min, rect_max, length) > 0 {
        centered_offset(scale, rect_min, rect_max, length)
    } else if constrain {
        constrained_offset(offset, scale, rect_min, rect_max, length)
    } else {
        offset
    }
}

/// Scale and offset `(scale, x, y)` after the input of a frame: a drag pans
/// by its length in world units, a scroll over the view zooms by a tenth
/// around the pointer, and the scale is then limited to `min ..= MAX_SCALE`.
pub open spec fn after_input(scale: int, x: int, y: int, min: int, input: &FrameInput) -> (int, int, int) {
    let one = SCALE_ONE as int;
    let (px, py) = if input.dragged {
        (
            saturated(x - input.drag_delta.x * one / scale),
            saturated(y - input.drag_delta.y * one / scale),
        )
    } else {
        (x, y)
    };
    if input.hovered && input.scroll_y != 0 {
        let value = if input.scroll_y > 0 {
            zoom_in_value(scale)
        } else {
            zoom_out_value(scale)
        };
        let s = clamp_spec(value, min, MAX_SCALE as int);
        let a = input.latest_pointer;
        (s, saturated(zoomed_offset(px, scale, s, a.x as int)), saturated(zoomed_offset(py, scale, s, a.y as int)))
    } else {
        (clamp_spec(scale, min, MAX_SCALE as int), px, py)
    }
}

/// The scale one zoom step in leads to: the scale times 1.1, rounded up, so
/// that it rises by one fixed-point step at least.
pub open spec fn zoom_in_value(scale: int) -> int {
    scale + (scale + 9) / 10
}

/// The scale one zoom step out leads to: the scale divided by 1.1, rounded
/// down.
pub open spec fn zoom_out_value(scale: int) -> int {
    scale * 10 / 11
}

fn zoom_in_step(scale: i64) -> (r: i64)
    requires
        1 <= scale <= MAX_SCALE,
    ensures
        r == zoom_in_value(scale as int),
        r > scale,
{
    scale + (scale + 9) / 10
}

fn zoom_out_step(scale: i64) -> (r: i64)
    requires
        1 <= scale <= MAX_SCALE,
    ensures
        r == zoom_out_value(scale as int),
        r < scale,
{
    scale * 10 / 11
}

/// Pan and zoom state of the image view.
pub struct PanZoomImage {
    /// Keep the image from being panned out of the viewport.
    pub constrain_to_image: bool,
    /// Centre the image on each axis where it is smaller than the viewport.
    pub always_center: bool,
    texture_size: Vec2,
    image_size: Vec2,
    offset: Vec2,
    scale: i64,
    checkers_mesh: Vec<Tile>,
    last_rect: Rect,
    last_image_rect: Rect,
    min_scale: i64,
    max_scale: i64,
    fit_request: bool,
    checkerboard_colors: [Color; 2],
}

/// The centre of `r`, rounded down.
pub open spec fn rect_center(r: Rect) -> (int, int) {
    ((r.min.x + r.max.x) / 2, (r.min.y + r.max.y) / 2)
}

/// The pixel column (or row) under screen coordinate `screen`: the world
/// coordinate relative to the image's corner, in whole pixels, limited to the
/// range of `u32`.
pub open spec fn pixel_coord(offset: int, scale: int, rect_min: int, screen: int) -> int {
    clamp_spec(
        (screen_to_world_spec(offset, scale, screen) - rect_min) / (UNITS_PER_PIXEL as int),
        0,
        u32::MAX as int,
    )
}

/// The screen point at the image's top left corner lies on pixel zero.
pub proof fn lemma_top_left_is_pixel_zero(offset: int, scale: int, rect_min: int)
    requires
        scale >= 1,
    ensures
        pixel_coord(offset, scale, rect_min, world_to_screen_spec(offset, scale, rect_min)) == 0,
{
    lemma_round_trip(offset, scale, rect_min);
    let r = screen_to_world_spec(offset, scale, world_to_screen_spec(offset, scale, rect_min));
    assert((r - rect_min) / (UNITS_PER_PIXEL as int) <= 0) by (nonlinear_arith)
        requires
            r - rect_min <= 0,
    ;
}

/// A screen coordinate within the image's extent on screen (its near edge
/// included, its far edge not) lies on one of the image's `pixels` pixels.
pub proof fn lemma_pixel_within_image(offset: int, scale: int, rect_min: int, pixels: int, screen: int)
    requires
        scale >= 1,
        pixels >= 1,
        world_to_screen_spec(offset, scale, rect_min) <= screen,
        screen < world_to_screen_spec(offset, scale, rect_min + pixels * UNITS_PER_PIXEL),
    ensures
        0 <= pixel_coord(offset, scale, rect_min, screen) < pixels,
{
    let one = SCALE_ONE as int;
    let u = UNITS_PER_PIXEL as int;
    let l = pixels * u;
    let e = world_to_screen_spec(offset, scale, rect_min + l);
    vstd::arithmetic::div_mod::lemma_fundamental_div_mod((rect_min + l - offset) * scale, one);
    assert(screen * one <= (rect_min + l - offset) * scale - one) by (nonlinear_arith)
        requires
            screen <= e - 1,
            (rect_min + l - offset) * scale == one * e + ((rect_min + l - offset) * scale) % one,
            0 <= ((rect_min + l - offset) * scale) % one < one,
    ;
    let f = screen * one / scale;
    vstd::arithmetic::div_mod::lemma_fundamental_div_mod(screen * one, scale);
    assert(f < rect_min + l - offset) by (nonlinear_arith)
        requires
            screen * one == scale * f + (screen * one) % scale,
            0 <= (screen * one) % scale,
            screen * one <= (rect_min + l - offset) * scale - one,
            scale >= 1,
            one == 65536,
    ;
    let w = f + offset - rect_min;
    assert(w < l);
    assert(w / u < pixels) by (nonlinear_arith)
        requires
            w < pixels * u,
            u == 64,
    ;
}

fn pixel_axis(offset: i64, scale: i64, rect_min: i64, screen: i64) -> (r: u32)
    requires
        1 <= scale,
        offset_ok(offset as int),
        coord_ok(rect_min as int),
        coord_ok(screen as int),
    ensures
        r == pixel_coord(offset as int, scale as int, rect_min as int, screen as int),
{
    let world = screen_to_world_axis(offset, scale, screen as i128);
    let p = floor_div(world - rect_min as i128, UNITS_PER_PIXEL as i128);
    clamp_i128(p, 0, u32::MAX as i128) as u32
}

fn fit_scale(rect: Rect, image_size: Vec2) -> (r: i64)
    requires
        rect.in_bounds(),
        edge_ok(image_size.x as int),
        edge_ok(image_size.y as int),
    ensures
        r == fit_scale_spec(rect, image_size),
        -4 * COORD_LIMIT * SCALE_ONE <= r <= 4 * COORD_LIMIT * SCALE_ONE,
{
    let dw = rect.max.x as i128 - rect.min.x as i128;
    let dh = rect.max.y as i128 - rect.min.y as i128;
    assert(-2 * COORD_LIMIT * SCALE_ONE <= dw * SCALE_ONE <= 2 * COORD_LIMIT * SCALE_ONE) by (nonlinear_arith)
        requires
            -2 * COORD_LIMIT <= dw <= 2 * COORD_LIMIT,
    ;
    assert(-2 * COORD_LIMIT * SCALE_ONE <= dh * SCALE_ONE <= 2 * COORD_LIMIT * SCALE_ONE) by (nonlinear_arith)
        requires
            -2 * COORD_LIMIT <= dh <= 2 * COORD_LIMIT,
    ;
    let w = dw * (SCALE_ONE as i128);
    let h = dh * (SCALE_ONE as i128);
    let sx = floor_div(w, image_size.x as i128);
    let sy = floor_div(h, image_size.y as i128);
    proof {
        lemma_floor_div_bounds(w as int, image_size.x as int);
        lemma_floor_div_bounds(h as int, image_size.y as int);
    }
    if sx < sy {
        sx as i64
    } else {
        sy as i64
    }
}

/// The lowest offset on one axis: the image's near edge stays at or before
/// the viewport's near edge.
pub open spec fn min_offset_spec(scale: int, rect_min: int) -> int {
    rect_min - rect_min * SCALE_ONE / scale
}

/// The highest offset on one axis: the image's far edge stays at or past the
/// viewport's far edge; never below the lowest offset.
pub open spec fn max_offset_spec(scale: int, rect_min: int, rect_max: int, length: int) -> int {
    let m = rect_min + length + (-(rect_max * SCALE_ONE)) / scale;
    let lo = min_offset_spec(scale, rect_min);
    if m > lo {
        m
    } else {
        lo
    }
}

/// `offset` limited so that the image cannot be panned out of the viewport.
pub open spec fn constrained_offset(offset: int, scale: int, rect_min: int, rect_max: int, length: int) -> int {
    clamp_spec(offset, min_offset_spec(scale, rect_min), max_offset_spec(scale, rect_min, rect_max, length))
}

/// The viewport's extent not covered by the image on one axis, times `SCALE_ONE`.
pub open spec fn free_space(scale: int, rect_min: int, rect_max: int, length: int) -> int {
    (rect_max - rect_min) * SCALE_ONE - length * scale
}

/// The offset that puts the image in the middle of the viewport on one axis.
pub open spec fn centered_offset(scale: int, rect_min: int, rect_max: int, length: int) -> int {
    rect_min - (free_space(scale, rect_min, rect_max, length) + 2 * rect_min * SCALE_ONE) / (2 * scale)
}

/// Where the image is larger than the viewport by two world units or more,
/// the constrained offset makes it cover the viewport from edge to edge, and
/// centering leaves it alone.
pub proof fn lemma_constrained_image_covers_viewport(
    offset: int,
    scale: int,
    rect_min: int,
    rect_max: int,
    length: int,
)
    requires
        scale >= 1,
        rect_min <= rect_max,
        length * scale >= (rect_max - rect_min) * SCALE_ONE + 2 * scale,
    ensures
        ({
            let o = constrained_offset(offset, scale, rect_min, rect_max, length);
            &&& world_to_screen_spec(o, scale, rect_min) <= rect_min
            &&& world_to_screen_spec(o, scale, rect_min + length) >= rect_max
            &&& free_space(scale, rect_min, rect_max, length) <= 0
        }),
{
    let one = SCALE_ONE as int;
    let fl = rect_min * one / scale;
    let ce = (-(rect_max * one)) / scale;
    vstd::arithmetic::div_mod::lemma_fundamental_div_mod(rect_min * one, scale);
    vstd::arithmetic::div_mod::lemma_fundamental_div_mod(-(rect_max * one), scale);
    let m1 = (rect_min * one) % scale;
    let m2 = (-(rect_max * one)) % scale;
    let lo = min_offset_spec(scale, rect_min);
    let hi = rect_min + length + ce;
    assert(lo <= hi) by (nonlinear_arith)
        requires
            rect_min * one == scale * fl + m1,
            0 <= m1 < scale,
            -(rect_max * one) == scale * ce + m2,
            0 <= m2 < scale,
            lo == rect_min - fl,
            hi == rect_min + length + ce,
            length * scale >= (rect_max - rect_min) * one + 2 * scale,
            scale >= 1,
    ;
    let o = constrained_offset(offset, scale, rect_min, rect_max, length);
    assert(lo <= o <= hi);
    assert((rect_min - o) * scale <= rect_min * one) by (nonlinear_arith)
        requires
            rect_min - o <= fl,
            rect_min * one == scale * fl + m1,
            0 <= m1,
            scale >= 1,
    ;
    assert((rect_min + length - o) * scale >= rect_max * one) by (nonlinear_arith)
        requires
            rect_min + length - o >= -ce,
            -(rect_max * one) == scale * ce + m2,
            0 <= m2 < scale,
            scale >= 1,
    ;
    assert((rect_min - o) * scale / one <= rect_min) by (nonlinear_arith)
        requires
            (rect_min - o) * scale <= rect_min * one,
            one == 65536,
    ;
    assert((rect_min + length - o) * scale / one >= rect_max) by (nonlinear_arith)
        requires
            (rect_min + length - o) * scale >= rect_max * one,
            one == 65536,
    ;
    assert(free_space(scale, rect_min, rect_max, length) <= 0);
}

/// Where the image is at least as large as the viewport, the constrained
/// offset makes it cover the viewport up to a gap at the far edge of less than
/// one world unit plus one screen unit.
pub proof fn lemma_constrained_image_nearly_covers_viewport(
    offset: int,
    scale: int,
    rect_min: int,
    rect_max: int,
    length: int,
)
    requires
        scale >= 1,
        rect_min <= rect_max,
        length * scale >= (rect_max - rect_min) * SCALE_ONE,
    ensures
        ({
            let o = constrained_offset(offset, scale, rect_min, rect_max, length);
            &&& world_to_screen_spec(o, scale, rect_min) <= rect_min
            &&& world_to_screen_spec(o, scale, rect_min + length) * SCALE_ONE > rect_max * SCALE_ONE - scale
                - SCALE_ONE
        }),
{
    let one = SCALE_ONE as int;
    let fl = rect_min * one / scale;
    let ce = (-(rect_max * one)) / scale;
    vstd::arithmetic::div_mod::lemma_fundamental_div_mod(rect_min * one, scale);
    vstd::arithmetic::div_mod::lemma_fundamental_div_mod(-(rect_max * one), scale);
    let m1 = (rect_min * one) % scale;
    let m2 = (-(rect_max * one)) % scale;
    let lo = min_offset_spec(scale, rect_min);
    let hi = rect_min + length + ce;
    let o = constrained_offset(offset, scale, rect_min, rect_max, length);
    assert(lo <= o);
    assert((rect_min - o) * scale <= rect_min * one) by (nonlinear_arith)
        requires
            rect_min - o <= fl,
            rect_min * one == scale * fl + m1,
            0 <= m1,
            scale >= 1,
    ;
    assert((rect_min - o) * scale / one <= rect_min) by (nonlinear_arith)
        requires
            (rect_min - o) * scale <= rect_min * one,
            one == 65536,
    ;
    let x = (rect_min + length - o) * scale;
    if hi >= lo {
        assert(o <= hi);
        assert(x >= rect_max * one) by (nonlinear_arith)
            requires
                rect_min + length - o >= -ce,
                -(rect_max * one) == scale * ce + m2,
                0 <= m2 < scale,
                scale >= 1,
                x == (rect_min + length - o) * scale,
        ;
    } else {
        assert(o == lo);
        assert(x >= rect_max * one - scale) by (nonlinear_arith)
            requires
                rect_min + length - o == fl + length,
                rect_min * one == scale * fl + m1,
                0 <= m1 < scale,
                length * scale >= (rect_max - rect_min) * one,
                x == (rect_min + length - o) * scale,
        ;
    }
    vstd::arithmetic::div_mod::lemma_fundamental_div_mod(x, one);
    assert((x / one) * one > rect_max * one - scale - one) by (nonlinear_arith)
        requires
            x == one * (x / one) + x % one,
            0 <= x % one < one,
            x >= rect_max * one - scale,
    ;
}

fn constrain_axis(offset: i64, scale: i64, rect_min: i64, rect_max: i64, length: i64) -> (r: i64)
    requires
        1 <= scale <= MAX_SCALE,
        offset_ok(offset as int),
        coord_ok(rect_min as int),
        coord_ok(rect_max as int),
        edge_ok(length as int),
    ensures
        r == constrained_offset(offset as int, scale as int, rect_min as int, rect_max as int, length as int),
        offset_ok(r as int),
{
    let one = SCALE_ONE as i128;
    proof {
        assert(-COORD_LIMIT * SCALE_ONE <= rect_min * SCALE_ONE <= COORD_LIMIT * SCALE_ONE) by (nonlinear_arith)
            requires
                coord_ok(rect_min as int),
        ;
        assert(-COORD_LIMIT * SCALE_ONE <= rect_max * SCALE_ONE <= COORD_LIMIT * SCALE_ONE) by (nonlinear_arith)
            requires
                coord_ok(rect_max as int),
        ;
        lemma_floor_div_bounds(rect_min * SCALE_ONE, scale as int);
        lemma_floor_div_bounds(-(rect_max * SCALE_ONE), scale as int);
    }
    let lo = rect_min as i128 - floor_div(rect_min as i128 * one, scale as i128);
    let m = rect_min as i128 + length as i128 + floor_div(-(rect_max as i128 * one), scale as i128);
    let hi = if m > lo {
        m
    } else {
        lo
    };
    clamp_i128(offset as i128, lo, hi) as i64
}

fn center_axis(scale: i64, rect_min: i64, rect_max: i64, length: i64) -> (r: i64)
    requires
        1 <= scale <= MAX_SCALE,
        coord_ok(rect_min as int),
        coord_ok(rect_max as int),
        edge_ok(length as int),
    ensures
        r == centered_offset(scale as int, rect_min as int, rect_max as int, length as int),
        offset_ok(r as int),
{
    let one = SCALE_ONE as i128;
    let size = rect_max as i128 - rect_min as i128;
    proof {
        assert(-2 * COORD_LIMIT * SCALE_ONE <= size * SCALE_ONE <= 2 * COORD_LIMIT * SCALE_ONE) by (nonlinear_arith)
            requires
                -2 * COORD_LIMIT <= size <= 2 * COORD_LIMIT,
        ;
        assert(0 <= length * scale <= MAX_TEXTURE_EDGE * UNITS_PER_PIXEL * MAX_SCALE) by (nonlinear_arith)
            requires
                edge_ok(length as int),
                1 <= scale <= MAX_SCALE,
        ;
        assert(-COORD_LIMIT * SCALE_ONE <= rect_min * SCALE_ONE <= COORD_LIMIT * SCALE_ONE) by (nonlinear_arith)
            requires
                coord_ok(rect_min as int),
        ;
    }
    let free = size * one - length as i128 * scale as i128;
    let n = free + 2 * (rect_min as i128 * one);
    proof {
        lemma_floor_div_bounds(n as int, 2 * scale as int);
    }
    (rect_min as i128 - floor_div(n, 2 * scale as i128)) as i64
}

/// Start of the visible part of the texture on one axis, in `1 / UV_ONE` steps.
pub open spec fn uv_min_spec(image_min: int, rect_min: int, scale: int, length: int) -> int {
    if image_min < rect_min {
        clamp_spec(UV_ONE * ((rect_min - image_min) * SCALE_ONE) / (length * scale), 0, UV_ONE as int)
    } else {
        0
    }
}

/// End of the visible part of the texture on one axis, in `1 / UV_ONE` steps.
pub open spec fn uv_max_spec(image_max: int, rect_max: int, scale: int, length: int) -> int {
    if image_max > rect_max {
        clamp_spec(
            UV_ONE * (length * scale + (rect_max - image_max) * SCALE_ONE) / (length * scale),
            0,
            UV_ONE as int,
        )
    } else {
        UV_ONE as int
    }
}

/// Bound on the magnitude of a screen coordinate computed from a world one.
pub open spec fn screen_ok(v: int) -> bool {
    -5 * OFFSET_LIMIT * MAX_SCALE <= v <= 5 * OFFSET_LIMIT * MAX_SCALE
}

fn clipping_uv_axis(image_min: i128, image_max: i128, rect_min: i64, rect_max: i64, scale: i64, length: i64) -> (r: (i64, i64))
    requires
        screen_ok(image_min as int),
        screen_ok(image_max as int),
        coord_ok(rect_min as int),
        coord_ok(rect_max as int),
        1 <= scale <= MAX_SCALE,
        edge_ok(length as int),
    ensures
        r.0 == uv_min_spec(image_min as int, rect_min as int, scale as int, length as int),
        r.1 == uv_max_spec(image_max as int, rect_max as int, scale as int, length as int),
{
    let one = SCALE_ONE as i128;
    let uv_one = UV_ONE as i128;
    proof {
        assert(1 <= length * scale <= MAX_TEXTURE_EDGE * UNITS_PER_PIXEL * MAX_SCALE) by (nonlinear_arith)
            requires
                edge_ok(length as int),
                1 <= scale <= MAX_SCALE,
        ;
    }
    let ls = length as i128 * scale as i128;
    let mut uv_min: i64 = 0;
    if image_min < rect_min as i128 {
        let d = rect_min as i128 - image_min;
        proof {
            assert(0 <= UV_ONE * (d * SCALE_ONE) <= UV_ONE * (6 * OFFSET_LIMIT * MAX_SCALE * SCALE_ONE)) by (nonlinear_arith)
                requires
                    0 <= d <= 6 * OFFSET_LIMIT * MAX_SCALE,
            ;
        }
        let v = floor_div(uv_one * (d * one), ls);
        uv_min = clamp_i128(v, 0, uv_one) as i64;
    }
    let mut uv_max: i64 = UV_ONE;
    if image_max > rect_max as i128 {
        let d = rect_max as i128 - image_max;
        proof {
            assert(-UV_ONE * (7 * OFFSET_LIMIT * MAX_SCALE * SCALE_ONE) <= UV_ONE * (ls + d * SCALE_ONE) <= UV_ONE * (7 * OFFSET_LIMIT * MAX_SCALE * SCALE_ONE)) by (nonlinear_arith)
                requires
                    -6 * OFFSET_LIMIT * MAX_SCALE <= d <= 0,
                    1 <= ls <= MAX_TEXTURE_EDGE * UNITS_PER_PIXEL * MAX_SCALE,
            ;
        }
        let v = floor_div(uv_one * (ls + d * one), ls);
        uv_max = clamp_i128(v, 0, uv_one) as i64;
    }
    (uv_min, uv_max)
}

/// The scale after the viewport's far corner moved from `last.max` to
/// `rect.max`: changed in proportion to the move on the axis whose far edge
/// moved in the more, then kept within one step and `MAX_SCALE`.
pub open spec fn resized_scale_spec(scale: int, last: Rect, rect: Rect) -> int {
    let cx = last.max.x - rect.max.x;
    let cy = last.max.y - rect.max.y;
    let w = rect.max.x - rect.min.x;
    let h = rect.max.y - rect.min.y;
    let raw = if cx > cy {
        if w > 0 {
            scale - cx * scale / w
        } else {
            scale
        }
    } else {
        if h > 0 {
            scale - cy * scale / h
        } else {
            scale
        }
    };
    clamp_spec(raw, 1, MAX_SCALE as int)
}

fn resized_scale(scale: i64, last: Rect, rect: Rect) -> (r: i64)
    requires
        1 <= scale <= MAX_SCALE,
        last.in_bounds(),
        rect.in_bounds(),
    ensures
        r == resized_scale_spec(scale as int, last, rect),
{
    let cx = last.max.x as i128 - rect.max.x as i128;
    let cy = last.max.y as i128 - rect.max.y as i128;
    let w = rect.max.x as i128 - rect.min.x as i128;
    let h = rect.max.y as i128 - rect.min.y as i128;
    proof {
        assert(-2 * COORD_LIMIT * MAX_SCALE <= cx * scale <= 2 * COORD_LIMIT * MAX_SCALE) by (nonlinear_arith)
            requires
                -2 * COORD_LIMIT <= cx <= 2 * COORD_LIMIT,
                1 <= scale <= MAX_SCALE,
        ;
        assert(-2 * COORD_LIMIT * MAX_SCALE <= cy * scale <= 2 * COORD_LIMIT * MAX_SCALE) by (nonlinear_arith)
            requires
                -2 * COORD_LIMIT <= cy <= 2 * COORD_LIMIT,
                1 <= scale <= MAX_SCALE,
        ;
    }
    let raw: i128 = if cx > cy {
        if w > 0 {
            proof {
                lemma_floor_div_bounds(cx * scale, w as int);
            }
            scale as i128 - floor_div(cx * scale as i128, w)
        } else {
            scale as i128
        }
    } else {
        if h > 0 {
            proof {
                lemma_floor_div_bounds(cy * scale, h as int);
            }
            scale as i128 - floor_div(cy * scale as i128, h)
        } else {
            scale as i128
        }
    };
    clamp_i128(raw, 1, MAX_SCALE as i128) as i64
}

/// The pointer is over the visible image: the image rectangle is not empty,
/// holds the pointer, and no other layer covers the pointer.
pub open spec fn hovered_spec(image_rect: Rect, pointer: Option<Vec2>, pointer_on_layer: bool) -> bool {
    &&& image_rect.min.x < image_rect.max.x
    &&& image_rect.min.y < image_rect.max.y
    &&& pointer_on_layer
    &&& match pointer {
        Some(p) => image_rect.contains_spec(p),
        None => false,
    }
}

/// Whether the pointer is over `image_rect` and on the view's own layer.
pub fn rect_contains_pointer(image_rect: Rect, pointer: Option<Vec2>, pointer_on_layer: bool) -> (r: bool)
    ensures
        r == hovered_spec(image_rect, pointer, pointer_on_layer),
{
    image_rect.is_positive() && pointer_on_layer && match pointer {
        Some(p) => image_rect.contains(p),
        None => false,
    }
}

/// The clicks of each pointer button, kept only where the pointer is over the
/// image.
pub fn mask_clicks(clicked: &Vec<bool>, hovered: bool) -> (r: Vec<bool>)
    ensures
        r@.len() == clicked@.len(),
        forall|i: int| 0 <= i < r@.len() ==> #[trigger] r@[i] == (clicked@[i] && hovered),
{
    let mut r: Vec<bool> = Vec::new();
    let mut i: usize = 0;
    while i < clicked.len()
        invariant
            i <= clicked@.len(),
            r@.len() == i,
            forall|j: int| 0 <= j < i ==> #[trigger] r@[j] == (clicked@[j] && hovered),
        decreases clicked@.len() - i,
    {
        r.push(clicked[i] && hovered);
        i += 1;
    }
    r
}

/// One rectangular outline, `width` units thick, drawn inside the image only.
#[derive(Clone, Copy, Debug, PartialEq, Eq, Structural)]
pub struct Outline {
    pub rect: Rect,
    pub width: i64,
    pub color: Color,
}

pub open spec fn black() -> Color {
    Color { r: 0, g: 0, b: 0, a: 255 }
}

pub open spec fn white() -> Color {
    Color { r: 255, g: 255, b: 255, a: 255 }
}

/// `r` moved inwards by `d` on every side.
pub open spec fn shrunk(r: Rect, d: int) -> Rect {
    Rect {
        min: Vec2 { x: (r.min.x + d) as i64, y: (r.min.y + d) as i64 },
        max: Vec2 { x: (r.max.x - d) as i64, y: (r.max.y - d) as i64 },
    }
}

/// Screen coordinate of the near edge of the pixel under screen coordinate
/// `screen`.
pub open spec fn pixel_edge(offset: int, scale: int, screen: int) -> int {
    let w = screen_to_world_spec(offset, scale, screen);
    world_to_screen_spec(offset, scale, w / (UNITS_PER_PIXEL as int) * UNITS_PER_PIXEL)
}

/// The outlines that mark the pixel whose screen square is `cell`: black,
/// white and black above half the largest scale; a single white one above a
/// scale of three; none below.
pub open spec fn highlight_spec(cell: Rect, scale: int) -> Seq<Outline> {
    if scale > MAX_SCALE / 2 {
        seq![
            Outline { rect: cell, width: UNITS_PER_PIXEL, color: black() },
            Outline { rect: shrunk(cell, 2 * UNITS_PER_PIXEL), width: (2 * UNITS_PER_PIXEL) as i64, color: white() },
            Outline { rect: shrunk(cell, 3 * UNITS_PER_PIXEL), width: UNITS_PER_PIXEL, color: black() },
        ]
    } else if scale > 3 * SCALE_ONE {
        seq![Outline { rect: cell, width: UNITS_PER_PIXEL, color: white() }]
    } else {
        seq![]
    }
}

/// The screen square of the pixel under screen point `p`.
pub open spec fn pixel_cell(offset: Vec2, scale: int, p: Vec2) -> Rect {
    let x = pixel_edge(offset.x as int, scale, p.x as int);
    let y = pixel_edge(offset.y as int, scale, p.y as int);
    let size = scale * UNITS_PER_PIXEL / (SCALE_ONE as int);
    Rect { min: Vec2 { x: x as i64, y: y as i64 }, max: Vec2 { x: (x + size) as i64, y: (y + size) as i64 } }
}

proof fn lemma_pixel_edge_near(offset: int, scale: int, screen: int)
    requires
        1 <= scale <= MAX_SCALE,
    ensures
        screen - 2081 <= pixel_edge(offset, scale, screen) <= screen,
{
    let one = SCALE_ONE as int;
    let u = UNITS_PER_PIXEL as int;
    let f = screen * one / scale;
    vstd::arithmetic::div_mod::lemma_fundamental_div_mod(screen * one, scale);
    let m = (screen * one) % scale;
    let w = f + offset;
    vstd::arithmetic::div_mod::lemma_fundamental_div_mod(w, u);
    let g = w / u * u;
    assert(w - u < g <= w);
    let d = g - offset;
    assert(d * scale <= screen * one && d * scale > screen * one - 65 * scale) by (nonlinear_arith)
        requires
            screen * one == scale * f + m,
            0 <= m < scale,
            f - u < d <= f,
            u == 64,
            scale >= 1,
    ;
    let e = d * scale / one;
    vstd::arithmetic::div_mod::lemma_fundamental_div_mod(d * scale, one);
    assert(screen - 2081 <= e <= screen) by (nonlinear_arith)
        requires
            d * scale == one * e + (d * scale) % one,
            0 <= (d * scale) % one < one,
            d * scale <= screen * one,
            d * scale > screen * one - 65 * scale,
            scale <= MAX_SCALE,
            one == 65536,
            MAX_SCALE == 2097152,
    ;
}

fn pixel_edge_axis(offset: i64, scale: i64, screen: i64) -> (r: i64)
    requires
        1 <= scale <= MAX_SCALE,
        offset_ok(offset as int),
        coord_ok(screen as int),
    ensures
        r == pixel_edge(offset as int, scale as int, screen as int),
        screen - 2081 <= r <= screen,
{
    proof {
        lemma_pixel_edge_near(offset as int, scale as int, screen as int);
    }
    let w = screen_to_world_axis(offset, scale, screen as i128);
    let g = floor_div(w, UNITS_PER_PIXEL as i128) * (UNITS_PER_PIXEL as i128);
    proof {
        lemma_floor_div_bounds(w as int, UNITS_PER_PIXEL as int);
    }
    world_to_screen_axis(offset, scale, g) as i64
}

fn shrink(r: Rect, d: i64) -> (s: Rect)
    requires
        -2 * COORD_LIMIT <= r.min.x <= 2 * COORD_LIMIT,
        -2 * COORD_LIMIT <= r.min.y <= 2 * COORD_LIMIT,
        -2 * COORD_LIMIT <= r.max.x <= 2 * COORD_LIMIT,
        -2 * COORD_LIMIT <= r.max.y <= 2 * COORD_LIMIT,
        0 <= d <= 4096,
    ensures
        s == shrunk(r, d as int),
{
    Rect {
        min: Vec2 { x: r.min.x + d, y: r.min.y + d },
        max: Vec2 { x: r.max.x - d, y: r.max.y - d },
    }
}

fn pixel_highlight(offset: Vec2, scale: i64, pointer: Vec2) -> (r: Vec<Outline>)
    requires
        1 <= scale <= MAX_SCALE,
        offset_ok(offset.x as int),
        offset_ok(offset.y as int),
        pointer.in_bounds(),
    ensures
        r@ == highlight_spec(pixel_cell(offset, scale as int, pointer), scale as int),
{
    let x = pixel_edge_axis(offset.x, scale, pointer.x);
    let y = pixel_edge_axis(offset.y, scale, pointer.y);
    let size = scale * UNITS_PER_PIXEL / SCALE_ONE;
    proof {
        assert(0 <= size <= 2048) by (nonlinear_arith)
            requires
                size == scale * UNITS_PER_PIXEL / (SCALE_ONE as int),
                1 <= scale <= MAX_SCALE,
        ;
    }
    let cell = Rect { min: Vec2 { x, y }, max: Vec2 { x: x + size, y: y + size } };
    let black = Color { r: 0, g: 0, b: 0, a: 255 };
    let white = Color { r: 255, g: 255, b: 255, a: 255 };
    let mut r: Vec<Outline> = Vec::new();
    if scale > MAX_SCALE / 2 {
        r.push(Outline { rect: cell, width: UNITS_PER_PIXEL, color: black });
        r.push(Outline { rect: shrink(cell, 2 * UNITS_PER_PIXEL), width: 2 * UNITS_PER_PIXEL, color: white });
        r.push(Outline { rect: shrink(cell, 3 * UNITS_PER_PIXEL), width: UNITS_PER_PIXEL, color: black });
        assert(r@ =~= highlight_spec(cell, scale as int));
    } else if scale > 3 * SCALE_ONE {
        r.push(Outline { rect: cell, width: UNITS_PER_PIXEL, color: white });
        assert(r@ =~= highlight_spec(cell, scale as int));
    } else {
        assert(r@ =~= highlight_spec(cell, scale as int));
    }
    r
}

/// A texture edge, in world units, that the view can handle.
pub open spec fn edge_ok(e: int) -> bool {
    UNITS_PER_PIXEL <= e <= MAX_TEXTURE_EDGE * UNITS_PER_PIXEL
}

pub open spec fn offset_ok(o: int) -> bool {
    -OFFSET_LIMIT <= o <= OFFSET_LIMIT
}

impl PanZoomImage {
    /// The state is consistent: the scale lies within its bounds, sizes and
    /// coordinates within range, and the image size is the texture size,
    /// turned or not.
    pub closed spec fn wf(&self) -> bool {
        &&& self.ranges_ok()
        &&& self.min_scale <= self.scale <= self.max_scale
    }

    /// Every value lies within its range; the scale may lie outside its
    /// bounds, which happens within a frame.
    closed spec fn ranges_ok(&self) -> bool {
        &&& 1 <= self.min_scale <= SCALE_ONE
        &&& self.max_scale == MAX_SCALE
        &&& 1 <= self.scale <= MAX_SCALE
        &&& offset_ok(self.offset.x as int)
        &&& offset_ok(self.offset.y as int)
        &&& self.last_rect.in_bounds()
        &&& self.last_image_rect.in_bounds()
        &&& edge_ok(self.texture_size.x as int)
        &&& edge_ok(self.texture_size.y as int)
        &&& self.texture_size.x % UNITS_PER_PIXEL == 0
        &&& self.texture_size.y % UNITS_PER_PIXEL == 0
        &&& (self.image_size == logical_size_spec(self.texture_size, 0) || self.image_size
            == logical_size_spec(self.texture_size, 1))
    }

    pub closed spec fn constrains_to_image(&self) -> bool {
        self.constrain_to_image
    }

    pub closed spec fn centers(&self) -> bool {
        self.always_center
    }

    pub closed spec fn scale_spec(&self) -> int {
        self.scale as int
    }

    pub closed spec fn min_scale_value(&self) -> int {
        self.min_scale as int
    }

    pub closed spec fn max_scale_value(&self) -> int {
        self.max_scale as int
    }

    pub closed spec fn offset_spec(&self) -> Vec2 {
        self.offset
    }

    pub closed spec fn image_size_spec(&self) -> Vec2 {
        self.image_size
    }

    pub closed spec fn texture_size_spec(&self) -> Vec2 {
        self.texture_size
    }

    pub closed spec fn last_rect_spec(&self) -> Rect {
        self.last_rect
    }

    pub closed spec fn last_image_rect_spec(&self) -> Rect {
        self.last_image_rect
    }

    pub closed spec fn fit_requested(&self) -> bool {
        self.fit_request
    }

    pub closed spec fn colors_spec(&self) -> [Color; 2] {
        self.checkerboard_colors
    }

    pub closed spec fn checkerboard_spec(&self) -> Seq<Tile> {
        self.checkers_mesh@
    }

    /// A view of a `texture_width` by `texture_height` pixel image, fitted to
    /// the viewport on the first frame.
    pub fn new(
        constrain_to_image: bool,
        always_center: bool,
        texture_width: u32,
        texture_height: u32,
        checkerboard_colors: [Color; 2],
    ) -> (r: PanZoomImage)
        requires
            1 <= texture_width <= MAX_TEXTURE_EDGE,
            1 <= texture_height <= MAX_TEXTURE_EDGE,
        ensures
            r.wf(),
            r.constrains_to_image() == constrain_to_image,
            r.centers() == always_center,
            r.scale_spec() == SCALE_ONE,
            r.offset_spec() == (Vec2 { x: 0, y: 0 }),
            r.texture_size_spec() == (Vec2 {
                x: (texture_width * UNITS_PER_PIXEL) as i64,
                y: (texture_height * UNITS_PER_PIXEL) as i64,
            }),
            r.image_size_spec() == r.texture_size_spec(),
            r.fit_requested(),
            r.colors_spec() == checkerboard_colors,
            r.checkerboard_spec().len() == 0,
            r.max_scale_value() == MAX_SCALE,
            r.min_scale_value() == 1,
            r.last_rect_spec() == Rect::zero_spec(),
            r.last_image_rect_spec() == Rect::zero_spec(),
    {
        let texture_size = Vec2 {
            x: texture_width as i64 * UNITS_PER_PIXEL,
            y: texture_height as i64 * UNITS_PER_PIXEL,
        };
        PanZoomImage {
            constrain_to_image,
            always_center,
            texture_size,
            image_size: texture_size,
            offset: Vec2 { x: 0, y: 0 },
            scale: SCALE_ONE,
            checkers_mesh: Vec::new(),
            last_rect: Rect::zero(),
            last_image_rect: Rect::zero(),
            min_scale: 1,
            max_scale: MAX_SCALE,
            fit_request: true,
            checkerboard_colors,
        }
    }

    /// The current scale factor, in steps of `1 / SCALE_ONE`.
    pub fn scale(&self) -> (r: i64)
        ensures
            r == self.scale_spec(),
    {
        self.scale
    }

    /// The largest scale factor.
    pub fn max_scale(&self) -> (r: i64)
        ensures
            r == self.max_scale_value(),
    {
        self.max_scale
    }

    /// The smallest scale factor, as found on the last frame.
    pub fn min_scale(&self) -> (r: i64)
        ensures
            r == self.min_scale_value(),
    {
        self.min_scale
    }

    /// The world point at the viewport's origin.
    pub fn offset(&self) -> (r: Vec2)
        ensures
            r == self.offset_spec(),
    {
        self.offset
    }

    /// The image size as displayed, in world units.
    pub fn image_size(&self) -> (r: Vec2)
        ensures
            r == self.image_size_spec(),
    {
        self.image_size
    }

    /// The visible part of the image on screen, as of the last frame.
    pub fn last_image_rect(&self) -> (r: Rect)
        ensures
            r == self.last_image_rect_spec(),
    {
        self.last_image_rect
    }

    /// The checkerboard drawn behind the image.
    pub fn checkerboard(&self) -> (r: &Vec<Tile>)
        ensures
            r@ == self.checkerboard_spec(),
    {
        &self.checkers_mesh
    }

    fn center_of_last_image_rect(&self) -> (r: Vec2)
        requires
            self.ranges_ok(),
        ensures
            r.in_bounds(),
            r.x == (self.last_image_rect.min.x + self.last_image_rect.max.x) / 2,
            r.y == (self.last_image_rect.min.y + self.last_image_rect.max.y) / 2,
    {
        let r = self.last_image_rect;
        Vec2 {
            x: floor_div(r.min.x as i128 + r.max.x as i128, 2) as i64,
            y: floor_div(r.min.y as i128 + r.max.y as i128, 2) as i64,
        }
    }

    /// Sets the scale to `zoom_value`, limited to the scale bounds, keeping the
    /// world point under screen point `anchor` in place.
    fn set_zoom(&mut self, zoom_value: i64, anchor: Vec2)
        requires
            old(self).ranges_ok(),
            anchor.in_bounds(),
        ensures
            final(self).wf(),
            final(self).scale == clamp_spec(zoom_value as int, old(self).min_scale as int, old(self).max_scale as int),
            final(self).offset.x == saturated(zoomed_offset(old(self).offset.x as int, old(self).scale as int, final(self).scale as int, anchor.x as int)),
            final(self).offset.y == saturated(zoomed_offset(old(self).offset.y as int, old(self).scale as int, final(self).scale as int, anchor.y as int)),
            final(self).only_scale_and_offset_changed(old(self)),
    {
        let before_x = screen_to_world_axis(self.offset.x, self.scale, anchor.x as i128);
        let before_y = screen_to_world_axis(self.offset.y, self.scale, anchor.y as i128);
        let new_scale = clamp_i128(zoom_value as i128, self.min_scale as i128, self.max_scale as i128) as i64;
        self.scale = new_scale;
        let after_x = screen_to_world_axis(self.offset.x, self.scale, anchor.x as i128);
        let after_y = screen_to_world_axis(self.offset.y, self.scale, anchor.y as i128);
        self.offset.x = saturate(self.offset.x as i128 + before_x - after_x);
        self.offset.y = saturate(self.offset.y as i128 + before_y - after_y);
    }

    /// Scale and offset `(scale, x, y)` after the first steps of a frame in
    /// `rect`: the scale follows the resize, and the image is fitted where
    /// asked, or where the view sat at the fit scale.
    pub open spec fn frame_start(&self, rect: Rect, rotation: nat) -> (int, int, int) {
        let size = logical_size_spec(self.texture_size_spec(), rotation);
        let min = min_scale_spec(rect, size);
        let fitting = self.fit_requested() || self.scale_spec() == fit_scale_spec(
            self.last_rect_spec(),
            self.image_size_spec(),
        );
        let resized = resized_scale_spec(self.scale_spec(), self.last_rect_spec(), rect);
        if fitting {
            let s = clamp_spec(fit_scale_spec(rect, size), min, self.max_scale_value());
            let a = rect_center(self.last_image_rect_spec());
            (
                s,
                saturated(zoomed_offset(self.offset_spec().x as int, resized, s, a.0)),
                saturated(zoomed_offset(self.offset_spec().y as int, resized, s, a.1)),
            )
        } else {
            (resized, self.offset_spec().x as int, self.offset_spec().y as int)
        }
    }

    /// A consistent view keeps its scale within its bounds, which holds after
    /// every operation since each one keeps the view consistent.
    pub proof fn lemma_scale_within_bounds(&self)
        requires
            self.wf(),
        ensures
            1 <= self.min_scale_value() <= self.scale_spec() <= self.max_scale_value(),
            self.max_scale_value() == MAX_SCALE,
    {
    }

    /// In a consistent view, mapping any world point to the screen and back
    /// lands on the point itself, or at most one screen unit's worth of world
    /// units before it, on each axis.
    pub proof fn lemma_world_screen_round_trip(&self, p: (int, int))
        requires
            self.wf(),
        ensures
            ({
                let o = self.offset_spec();
                let s = self.scale_spec();
                let rx = screen_to_world_spec(o.x as int, s, world_to_screen_spec(o.x as int, s, p.0));
                let ry = screen_to_world_spec(o.y as int, s, world_to_screen_spec(o.y as int, s, p.1));
                &&& rx <= p.0 && (p.0 - rx) * s < SCALE_ONE + s
                &&& ry <= p.1 && (p.1 - ry) * s < SCALE_ONE + s
            }),
    {
        lemma_round_trip(self.offset_spec().x as int, self.scale_spec(), p.0);
        lemma_round_trip(self.offset_spec().y as int, self.scale_spec(), p.1);
    }

    /// The image size of a consistent view is a whole number of pixels, one
    /// at least, on each axis: the texture's size, turned or not.
    pub proof fn lemma_image_size_in_pixels(&self)
        requires
            self.wf(),
        ensures
            edge_ok(self.image_size_spec().x as int),
            edge_ok(self.image_size_spec().y as int),
            self.image_size_spec().x % UNITS_PER_PIXEL == 0,
            self.image_size_spec().y % UNITS_PER_PIXEL == 0,
            self.image_size_spec() == logical_size_spec(self.texture_size_spec(), 0)
                || self.image_size_spec() == logical_size_spec(self.texture_size_spec(), 1),
    {
    }

    /// Every zoom operation (`zoom_in`, `zoom_out`, `zoom_to_fit`,
    /// `zoom_to_original`, and scrolling in `update`) keeps the world point
    /// under its anchor in place, whenever the new offset is within range.
    pub proof fn lemma_zoom_operation_keeps_anchor(
        prev: &PanZoomImage,
        next: &PanZoomImage,
        value: int,
        anchor: (int, int),
    )
        requires
            prev.wf(),
            next.zoomed_from(prev, value, anchor),
            offset_ok(zoomed_offset(prev.offset_spec().x as int, prev.scale_spec(), next.scale_spec(), anchor.0)),
            offset_ok(zoomed_offset(prev.offset_spec().y as int, prev.scale_spec(), next.scale_spec(), anchor.1)),
        ensures
            screen_to_world_spec(next.offset_spec().x as int, next.scale_spec(), anchor.0)
                == screen_to_world_spec(prev.offset_spec().x as int, prev.scale_spec(), anchor.0),
            screen_to_world_spec(next.offset_spec().y as int, next.scale_spec(), anchor.1)
                == screen_to_world_spec(prev.offset_spec().y as int, prev.scale_spec(), anchor.1),
    {
        lemma_zoom_keeps_anchor(prev.offset_spec().x as int, prev.scale_spec(), next.scale_spec(), anchor.0);
        lemma_zoom_keeps_anchor(prev.offset_spec().y as int, prev.scale_spec(), next.scale_spec(), anchor.1);
    }

    /// After a zoom to `value` around screen point `anchor` from state `prev`:
    /// the scale is `value` limited to the scale bounds, the offset keeps the
    /// world point under the anchor in place, and nothing else changed.
    pub open spec fn zoomed_from(&self, prev: &PanZoomImage, value: int, anchor: (int, int)) -> bool {
        &&& self.scale_spec() == clamp_spec(value, prev.min_scale_value(), prev.max_scale_value())
        &&& self.offset_spec().x == saturated(
            zoomed_offset(prev.offset_spec().x as int, prev.scale_spec(), self.scale_spec(), anchor.0),
        )
        &&& self.offset_spec().y == saturated(
            zoomed_offset(prev.offset_spec().y as int, prev.scale_spec(), self.scale_spec(), anchor.1),
        )
        &&& self.only_scale_and_offset_changed(prev)
    }

    /// Sets the scale to `1.0` around the centre of the visible image.
    pub fn zoom_to_original(&mut self)
        requires
            old(self).wf(),
        ensures
            final(self).wf(),
            final(self).zoomed_from(old(self), SCALE_ONE as int, rect_center(old(self).last_image_rect_spec())),
    {
        let center = self.center_of_last_image_rect();
        self.set_zoom(SCALE_ONE, center);
    }

    /// Sets the scale at which the image fits the viewport, around the centre
    /// of the visible image.
    pub fn zoom_to_fit(&mut self)
        requires
            old(self).wf(),
        ensures
            final(self).wf(),
            final(self).zoomed_from(
                old(self),
                fit_scale_spec(old(self).last_rect_spec(), old(self).image_size_spec()),
                rect_center(old(self).last_image_rect_spec()),
            ),
    {
        let rect = self.last_rect;
        let new_scale = self.calc_fit_scale(rect);
        let center = self.center_of_last_image_rect();
        self.set_zoom(new_scale, center);
    }

    /// Multiplies the scale by 1.1, around the centre of the visible image.
    pub fn zoom_in(&mut self)
        requires
            old(self).wf(),
        ensures
            final(self).wf(),
            final(self).zoomed_from(
                old(self),
                zoom_in_value(old(self).scale_spec()),
                rect_center(old(self).last_image_rect_spec()),
            ),
            final(self).scale_spec() >= old(self).scale_spec(),
            old(self).can_zoom_in_spec() ==> final(self).scale_spec() > old(self).scale_spec(),
    {
        let center = self.center_of_last_image_rect();
        let value = zoom_in_step(self.scale);
        self.set_zoom(value, center);
    }

    /// Divides the scale by 1.1, around the centre of the visible image.
    pub fn zoom_out(&mut self)
        requires
            old(self).wf(),
        ensures
            final(self).wf(),
            final(self).zoomed_from(
                old(self),
                zoom_out_value(old(self).scale_spec()),
                rect_center(old(self).last_image_rect_spec()),
            ),
            final(self).scale_spec() <= old(self).scale_spec(),
            old(self).can_zoom_out_spec() ==> final(self).scale_spec() < old(self).scale_spec(),
    {
        let center = self.center_of_last_image_rect();
        let value = zoom_out_step(self.scale);
        self.set_zoom(value, center);
    }

    pub open spec fn can_zoom_in_spec(&self) -> bool {
        self.scale_spec() < self.max_scale_value()
    }

    pub open spec fn can_zoom_out_spec(&self) -> bool {
        self.scale_spec() > self.min_scale_value()
    }

    pub fn can_zoom_in(&self) -> (r: bool)
        ensures
            r == self.can_zoom_in_spec(),
    {
        self.scale < self.max_scale
    }

    pub fn can_zoom_out(&self) -> (r: bool)
        ensures
            r == self.can_zoom_out_spec(),
    {
        self.scale > self.min_scale
    }

    /// Uses `colors` for the checkerboard, which is drawn anew on the next frame.
    pub fn change_checkerboard_color(&mut self, colors: [Color; 2])
        requires
            old(self).wf(),
        ensures
            final(self).wf(),
            final(self).colors_spec() == colors,
            final(self).last_image_rect_spec() == Rect::zero_spec(),
            final(self).scale_spec() == old(self).scale_spec(),
            final(self).offset_spec() == old(self).offset_spec(),
            final(self).min_scale_value() == old(self).min_scale_value(),
            final(self).max_scale_value() == old(self).max_scale_value(),
            final(self).last_rect_spec() == old(self).last_rect_spec(),
            final(self).image_size_spec() == old(self).image_size_spec(),
            final(self).texture_size_spec() == old(self).texture_size_spec(),
            final(self).checkerboard_spec() == old(self).checkerboard_spec(),
            final(self).fit_requested() == old(self).fit_requested(),
            final(self).constrains_to_image() == old(self).constrains_to_image(),
            final(self).centers() == old(self).centers(),
    {
        self.checkerboard_colors = colors;
        self.last_image_rect = Rect::zero();
    }

    /// The image pixel under screen point `position`, as of the last frame.
    pub fn get_image_pixel_coords(&self, position: Vec2) -> (r: (u32, u32))
        requires
            self.wf(),
            position.in_bounds(),
        ensures
            r.0 == pixel_coord(
                self.offset_spec().x as int,
                self.scale_spec(),
                self.last_rect_spec().min.x as int,
                position.x as int,
            ),
            r.1 == pixel_coord(
                self.offset_spec().y as int,
                self.scale_spec(),
                self.last_rect_spec().min.y as int,
                position.y as int,
            ),
    {
        (
            pixel_axis(self.offset.x, self.scale, self.last_rect.min.x, position.x),
            pixel_axis(self.offset.y, self.scale, self.last_rect.min.y, position.y),
        )
    }

    /// The screen point at which world point `world` appears.
    pub fn world_to_screen(&self, world: Vec2) -> (r: (i128, i128))
        requires
            self.wf(),
            world.in_bounds(),
        ensures
            r.0 == world_to_screen_spec(self.offset_spec().x as int, self.scale_spec(), world.x as int),
            r.1 == world_to_screen_spec(self.offset_spec().y as int, self.scale_spec(), world.y as int),
    {
        (
            world_to_screen_axis(self.offset.x, self.scale, world.x as i128),
            world_to_screen_axis(self.offset.y, self.scale, world.y as i128),
        )
    }

    /// The world point that appears at screen point `screen`.
    pub fn screen_to_world(&self, screen: Vec2) -> (r: (i128, i128))
        requires
            self.wf(),
            screen.in_bounds(),
        ensures
            r.0 == screen_to_world_spec(self.offset_spec().x as int, self.scale_spec(), screen.x as int),
            r.1 == screen_to_world_spec(self.offset_spec().y as int, self.scale_spec(), screen.y as int),
    {
        (
            screen_to_world_axis(self.offset.x, self.scale, screen.x as i128),
            screen_to_world_axis(self.offset.y, self.scale, screen.y as i128),
        )
    }

    fn calc_fit_scale(&self, rect: Rect) -> (r: i64)
        requires
            self.ranges_ok(),
            rect.in_bounds(),
        ensures
            r == fit_scale_spec(rect, self.image_size),
            -4 * COORD_LIMIT * SCALE_ONE <= r <= 4 * COORD_LIMIT * SCALE_ONE,
    {
        fit_scale(rect, self.image_size)
    }

    /// First steps of a frame: notes whether the view sits at the fit scale,
    /// takes the image size for `rotation`, follows a resize of the viewport to
    /// `rect`, finds the smallest scale, and fits the image where asked.
    fn begin_frame(&mut self, rect: Rect, rotation: usize)
        requires
            old(self).wf(),
            rect.in_bounds(),
        ensures
            final(self).ranges_ok(),
            final(self).last_rect == rect,
            final(self).image_size == logical_size_spec(old(self).texture_size, rotation as nat),
            final(self).texture_size == old(self).texture_size,
            final(self).min_scale == min_scale_spec(rect, final(self).image_size),
            !final(self).fit_request,
            final(self).constrain_to_image == old(self).constrain_to_image,
            final(self).always_center == old(self).always_center,
            final(self).checkerboard_colors == old(self).checkerboard_colors,
            final(self).checkers_mesh@ == old(self).checkers_mesh@,
            final(self).last_image_rect == old(self).last_image_rect,
            final(self).max_scale == old(self).max_scale,
            old(self).frame_start(rect, rotation as nat) == (
                final(self).scale as int,
                final(self).offset.x as int,
                final(self).offset.y as int,
            ),
    {
        // a view that sits at the fit scale stays fitted across resizes
        let last = self.last_rect;
        let last_fit = self.calc_fit_scale(last);
        if self.scale == last_fit {
            self.fit_request = true;
        }
        self.image_size = logical_size(self.texture_size, rotation);
        self.scale = resized_scale(self.scale, last, rect);
        self.last_rect = rect;
        let fit_now = fit_scale(rect, self.image_size);
        self.min_scale = if fit_now > SCALE_ONE {
            SCALE_ONE
        } else if fit_now < 1 {
            1
        } else {
            fit_now
        };
        if self.fit_request {
            let center = self.center_of_last_image_rect();
            self.set_zoom(fit_now, center);
            self.fit_request = false;
        }
    }

    /// Pans by the drag and zooms by the scroll around the pointer, then
    /// limits the scale to its bounds.
    fn apply_input(&mut self, input: &FrameInput)
        requires
            old(self).ranges_ok(),
            input_ok(input),
        ensures
            final(self).wf(),
            final(self).only_scale_and_offset_changed(old(self)),
            after_input(
                old(self).scale as int,
                old(self).offset.x as int,
                old(self).offset.y as int,
                old(self).min_scale as int,
                input,
            ) == (final(self).scale as int, final(self).offset.x as int, final(self).offset.y as int),
    {
        if input.dragged {
            let one = SCALE_ONE as i128;
            proof {
                assert(-COORD_LIMIT * SCALE_ONE <= input.drag_delta.x * SCALE_ONE <= COORD_LIMIT * SCALE_ONE) by (nonlinear_arith)
                    requires
                        coord_ok(input.drag_delta.x as int),
                ;
                assert(-COORD_LIMIT * SCALE_ONE <= input.drag_delta.y * SCALE_ONE <= COORD_LIMIT * SCALE_ONE) by (nonlinear_arith)
                    requires
                        coord_ok(input.drag_delta.y as int),
                ;
                lemma_floor_div_bounds(input.drag_delta.x * SCALE_ONE, self.scale as int);
                lemma_floor_div_bounds(input.drag_delta.y * SCALE_ONE, self.scale as int);
            }
            let dx = floor_div(input.drag_delta.x as i128 * one, self.scale as i128);
            let dy = floor_div(input.drag_delta.y as i128 * one, self.scale as i128);
            self.offset.x = saturate(self.offset.x as i128 - dx);
            self.offset.y = saturate(self.offset.y as i128 - dy);
        }
        if input.hovered {
            if input.scroll_y > 0 {
                let value = zoom_in_step(self.scale);
                self.set_zoom(value, input.latest_pointer);
            }
            if input.scroll_y < 0 {
                let value = zoom_out_step(self.scale);
                self.set_zoom(value, input.latest_pointer);
            }
        }
        self.scale = clamp_i128(self.scale as i128, self.min_scale as i128, self.max_scale as i128) as i64;
    }

    /// Keeps the image from being panned out of the viewport, and centres it
    /// where it is smaller than the viewport, as the policies ask.
    fn apply_policies(&mut self)
        requires
            old(self).wf(),
            old(self).last_rect.min.x <= old(self).last_rect.max.x,
            old(self).last_rect.min.y <= old(self).last_rect.max.y,
        ensures
            final(self).wf(),
            final(self).scale == old(self).scale,
            final(self).only_scale_and_offset_changed(old(self)),
            final(self).offset.x == policy_offset(
                old(self).offset.x as int,
                old(self).scale as int,
                old(self).last_rect.min.x as int,
                old(self).last_rect.max.x as int,
                old(self).image_size.x as int,
                old(self).always_center,
                old(self).constrain_to_image,
            ),
            final(self).offset.y == policy_offset(
                old(self).offset.y as int,
                old(self).scale as int,
                old(self).last_rect.min.y as int,
                old(self).last_rect.max.y as int,
                old(self).image_size.y as int,
                old(self).always_center,
                old(self).constrain_to_image,
            ),
            ({
                let o = final(self).offset;
                let sc = final(self).scale as int;
                let r = final(self).last_rect;
                let l = final(self).image_size;
                &&& (final(self).always_center && free_space(sc, r.min.x as int, r.max.x as int, l.x as int) > 0)
                    ==> o.x == centered_offset(sc, r.min.x as int, r.max.x as int, l.x as int)
                &&& (final(self).always_center && free_space(sc, r.min.y as int, r.max.y as int, l.y as int) > 0)
                    ==> o.y == centered_offset(sc, r.min.y as int, r.max.y as int, l.y as int)
                &&& (final(self).constrain_to_image && l.x * sc >= (r.max.x - r.min.x) * SCALE_ONE + 2 * sc)
                    ==> world_to_screen_spec(o.x as int, sc, r.min.x as int) <= r.min.x
                    && world_to_screen_spec(o.x as int, sc, r.min.x + l.x) >= r.max.x
                &&& (final(self).constrain_to_image && l.y * sc >= (r.max.y - r.min.y) * SCALE_ONE + 2 * sc)
                    ==> world_to_screen_spec(o.y as int, sc, r.min.y as int) <= r.min.y
                    && world_to_screen_spec(o.y as int, sc, r.min.y + l.y) >= r.max.y
            }),
    {
        let rect = self.last_rect;
        let ghost pre = self.offset;
        if self.constrain_to_image {
            self.offset.x = constrain_axis(self.offset.x, self.scale, rect.min.x, rect.max.x, self.image_size.x);
            self.offset.y = constrain_axis(self.offset.y, self.scale, rect.min.y, rect.max.y, self.image_size.y);
        }
        if self.always_center {
            let one = SCALE_ONE as i128;
            proof {
                assert(0 <= self.image_size.x * self.scale <= MAX_TEXTURE_EDGE * UNITS_PER_PIXEL * MAX_SCALE) by (nonlinear_arith)
                    requires
                        edge_ok(self.image_size.x as int),
                        1 <= self.scale <= MAX_SCALE,
                ;
                assert(0 <= self.image_size.y * self.scale <= MAX_TEXTURE_EDGE * UNITS_PER_PIXEL * MAX_SCALE) by (nonlinear_arith)
                    requires
                        edge_ok(self.image_size.y as int),
                        1 <= self.scale <= MAX_SCALE,
                ;
                assert(-2 * COORD_LIMIT * SCALE_ONE <= (rect.max.x - rect.min.x) * SCALE_ONE <= 2 * COORD_LIMIT * SCALE_ONE) by (nonlinear_arith)
                    requires
                        -2 * COORD_LIMIT <= rect.max.x - rect.min.x <= 2 * COORD_LIMIT,
                ;
                assert(-2 * COORD_LIMIT * SCALE_ONE <= (rect.max.y - rect.min.y) * SCALE_ONE <= 2 * COORD_LIMIT * SCALE_ONE) by (nonlinear_arith)
                    requires
                        -2 * COORD_LIMIT <= rect.max.y - rect.min.y <= 2 * COORD_LIMIT,
                ;
            }
            let free_x = (rect.max.x as i128 - rect.min.x as i128) * one - self.image_size.x as i128 * self.scale as i128;
            let free_y = (rect.max.y as i128 - rect.min.y as i128) * one - self.image_size.y as i128 * self.scale as i128;
            if free_x > 0 {
                self.offset.x = center_axis(self.scale, rect.min.x, rect.max.x, self.image_size.x);
            }
            if free_y > 0 {
                self.offset.y = center_axis(self.scale, rect.min.y, rect.max.y, self.image_size.y);
            }
        }
        proof {
            if self.constrain_to_image {
                let sc = self.scale as int;
                let l = self.image_size;
                if l.x * sc >= (rect.max.x - rect.min.x) * SCALE_ONE + 2 * sc {
                    lemma_constrained_image_covers_viewport(pre.x as int, sc, rect.min.x as int, rect.max.x as int, l.x as int);
                }
                if l.y * sc >= (rect.max.y - rect.min.y) * SCALE_ONE + 2 * sc {
                    lemma_constrained_image_covers_viewport(pre.y as int, sc, rect.min.y as int, rect.max.y as int, l.y as int);
                }
            }
        }
    }

    /// Makes the checkerboard anew for the visible image `area`.
    fn regenerate_checkerboard(&mut self, area: Rect)
        requires
            old(self).wf(),
            area.in_bounds(),
        ensures
            final(self).wf(),
            is_checkerboard(final(self).checkers_mesh@, area, CHECKER_SIZE as int, old(self).checkerboard_colors),
            final(self).last_image_rect == area,
            final(self).scale == old(self).scale,
            final(self).offset == old(self).offset,
            final(self).last_rect == old(self).last_rect,
            final(self).image_size == old(self).image_size,
            final(self).texture_size == old(self).texture_size,
            final(self).min_scale == old(self).min_scale,
            final(self).max_scale == old(self).max_scale,
            final(self).fit_request == old(self).fit_request,
            final(self).checkerboard_colors == old(self).checkerboard_colors,
            final(self).constrain_to_image == old(self).constrain_to_image,
            final(self).always_center == old(self).always_center,
    {
        self.checkers_mesh = generate_checkerboard_pattern(area, CHECKER_SIZE, self.checkerboard_colors);
        self.last_image_rect = area;
    }

    /// Runs one frame: reacts to a resize of the viewport, fits the image
    /// where asked, pans and zooms by the input, keeps the image in place by
    /// the constrain and centre policies, and reports what to draw.
    pub fn update(
        &mut self,
        input: &FrameInput,
        flip_horizontal: bool,
        flip_vertical: bool,
        rotation: usize,
        highlight_hovered_pixel: bool,
    ) -> (out: FrameOutput)
        requires
            old(self).wf(),
            input_ok(input),
        ensures
            final(self).wf(),
            final(self).last_rect_spec() == normalized_rect(input.rect),
            // a viewport of no extent on an axis shows nothing of the image there
            input.rect.max.x <= input.rect.min.x ==> out.image_rect.min.x == input.rect.min.x
                && out.image_rect.max.x == input.rect.min.x,
            input.rect.max.y <= input.rect.min.y ==> out.image_rect.min.y == input.rect.min.y
                && out.image_rect.max.y == input.rect.min.y,
            final(self).image_size_spec() == logical_size_spec(old(self).texture_size_spec(), rotation as nat),
            final(self).texture_size_spec() == old(self).texture_size_spec(),
            final(self).constrains_to_image() == old(self).constrains_to_image(),
            final(self).centers() == old(self).centers(),
            final(self).colors_spec() == old(self).colors_spec(),
            !final(self).fit_requested(),
            final(self).min_scale_value() == min_scale_spec(normalized_rect(input.rect), final(self).image_size_spec()),
            final(self).min_scale_value() <= final(self).scale_spec() <= final(self).max_scale_value(),
            final(self).max_scale_value() == MAX_SCALE,
            ({
                let start = old(self).frame_start(normalized_rect(input.rect), rotation as nat);
                let moved = after_input(start.0, start.1, start.2, final(self).min_scale_value(), input);
                let r = normalized_rect(input.rect);
                let l = final(self).image_size_spec();
                &&& final(self).scale_spec() == moved.0
                &&& final(self).offset_spec().x == policy_offset(
                    moved.1,
                    moved.0,
                    r.min.x as int,
                    r.max.x as int,
                    l.x as int,
                    final(self).centers(),
                    final(self).constrains_to_image(),
                )
                &&& final(self).offset_spec().y == policy_offset(
                    moved.2,
                    moved.0,
                    r.min.y as int,
                    r.max.y as int,
                    l.y as int,
                    final(self).centers(),
                    final(self).constrains_to_image(),
                )
            }),
            out.image_rect == image_rect_spec(
                final(self).offset_spec(),
                final(self).scale_spec(),
                normalized_rect(input.rect),
                final(self).image_size_spec(),
            ),
            final(self).last_image_rect_spec() == out.image_rect,
            out.checkerboard_changed == (old(self).last_image_rect_spec() != out.image_rect),
            out.checkerboard_changed ==> is_checkerboard(
                final(self).checkerboard_spec(),
                out.image_rect,
                CHECKER_SIZE as int,
                final(self).colors_spec(),
            ),
            !out.checkerboard_changed ==> final(self).checkerboard_spec() == old(self).checkerboard_spec(),
            is_oriented(
                out.uv,
                clipped_uv_spec(final(self).offset_spec(), final(self).scale_spec(), normalized_rect(input.rect), final(self).image_size_spec()),
                flip_horizontal,
                flip_vertical,
                rotation as nat,
            ),
            out.hovered == hovered_spec(out.image_rect, input.interact_pointer, input.pointer_on_layer),
            out.clicked@.len() == input.clicked@.len(),
            forall|i: int| 0 <= i < out.clicked@.len() ==> #[trigger] out.clicked@[i] == (input.clicked@[i] && out.hovered),
            highlight_hovered_pixel && out.hovered ==> out.highlight@ == highlight_spec(
                pixel_cell(final(self).offset_spec(), final(self).scale_spec(), input.interact_pointer->0),
                final(self).scale_spec(),
            ),
            !(highlight_hovered_pixel && out.hovered) ==> out.highlight@.len() == 0,
            ({
                let o = final(self).offset_spec();
                let sc = final(self).scale_spec();
                let r = normalized_rect(input.rect);
                let l = final(self).image_size_spec();
                &&& (final(self).centers() && free_space(sc, r.min.x as int, r.max.x as int, l.x as int) > 0)
                    ==> o.x == centered_offset(sc, r.min.x as int, r.max.x as int, l.x as int)
                &&& (final(self).centers() && free_space(sc, r.min.y as int, r.max.y as int, l.y as int) > 0)
                    ==> o.y == centered_offset(sc, r.min.y as int, r.max.y as int, l.y as int)
                &&& (final(self).constrains_to_image() && l.x * sc >= (r.max.x - r.min.x) * SCALE_ONE + 2 * sc)
                    ==> out.image_rect.min.x == r.min.x && out.image_rect.max.x == r.max.x
                &&& (final(self).constrains_to_image() && l.y * sc >= (r.max.y - r.min.y) * SCALE_ONE + 2 * sc)
                    ==> out.image_rect.min.y == r.min.y && out.image_rect.max.y == r.max.y
            }),
    {
        let rect = normalize_rect(input.rect);
        self.begin_frame(rect, rotation);
        self.apply_input(input);
        self.apply_policies();
        let image_min_x = world_to_screen_axis(self.offset.x, self.scale, rect.min.x as i128);
        let image_min_y = world_to_screen_axis(self.offset.y, self.scale, rect.min.y as i128);
        let image_max_x = world_to_screen_axis(self.offset.x, self.scale, rect.min.x as i128 + self.image_size.x as i128);
        let image_max_y = world_to_screen_axis(self.offset.y, self.scale, rect.min.y as i128 + self.image_size.y as i128);
        let image_rect = Rect {
            min: Vec2 {
                x: clamp_i128(image_min_x, rect.min.x as i128, rect.max.x as i128) as i64,
                y: clamp_i128(image_min_y, rect.min.y as i128, rect.max.y as i128) as i64,
            },
            max: Vec2 {
                x: clamp_i128(image_max_x, rect.min.x as i128, rect.max.x as i128) as i64,
                y: clamp_i128(image_max_y, rect.min.y as i128, rect.max.y as i128) as i64,
            },
        };
        let checkerboard_changed = self.last_image_rect != image_rect;
        if checkerboard_changed {
            self.regenerate_checkerboard(image_rect);
        }
        let (uv_min_x, uv_max_x) = clipping_uv_axis(image_min_x, image_max_x, rect.min.x, rect.max.x, self.scale, self.image_size.x);
        let (uv_min_y, uv_max_y) = clipping_uv_axis(image_min_y, image_max_y, rect.min.y, rect.max.y, self.scale, self.image_size.y);
        let clipped = Rect { min: Vec2 { x: uv_min_x, y: uv_min_y }, max: Vec2 { x: uv_max_x, y: uv_max_y } };
        let uv = oriented_uv(clipped, flip_horizontal, flip_vertical, rotation);
        let hovered = rect_contains_pointer(image_rect, input.interact_pointer, input.pointer_on_layer);
        let mut highlight: Vec<Outline> = Vec::new();
        if highlight_hovered_pixel && hovered {
            match input.interact_pointer {
                Some(p) => {
                    highlight = pixel_highlight(self.offset, self.scale, p);
                },
                None => {},
            }
        }
        let clicked = mask_clicks(&input.clicked, hovered);
        FrameOutput { image_rect, uv, checkerboard_changed, hovered, clicked, highlight }
    }

    /// Everything but the scale and the offset is as in `prev`.
    pub open spec fn only_scale_and_offset_changed(&self, prev: &PanZoomImage) -> bool {
        &&& self.constrains_to_image() == prev.constrains_to_image()
        &&& self.centers() == prev.centers()
        &&& self.texture_size_spec() == prev.texture_size_spec()
        &&& self.image_size_spec() == prev.image_size_spec()
        &&& self.checkerboard_spec() == prev.checkerboard_spec()
        &&& self.last_rect_spec() == prev.last_rect_spec()
        &&& self.last_image_rect_spec() == prev.last_image_rect_spec()
        &&& self.min_scale_value() == prev.min_scale_value()
        &&& self.max_scale_value() == prev.max_scale_value()
        &&& self.fit_requested() == prev.fit_requested()
        &&& self.colors_spec() == prev.colors_spec()
    }
}

} // verus!
