//! Rectangle outlines cut to a bounding rectangle.
use vstd::prelude::*;
use crate::geometry::{clamp_spec, Rect, Vec2, COORD_LIMIT};

verus! {

/// A straight line from `from` to `to`, `width` units thick.
#[derive(Clone, Copy, Debug, PartialEq, Eq, Structural)]
pub struct Segment {
    pub from: Vec2,
    pub to: Vec2,
    pub width: i64,
}

/// `p` moved to the nearest point of `b`.
pub open spec fn clamp_point(b: Rect, p: (int, int)) -> Vec2 {
    Vec2 {
        x: clamp_spec(p.0, b.min.x as int, b.max.x as int) as i64,
        y: clamp_spec(p.1, b.min.y as int, b.max.y as int) as i64,
    }
}

/// `s` followed by `seg` when `w` is positive.
pub open spec fn push_if(s: Seq<Segment>, w: int, from: Vec2, to: Vec2) -> Seq<Segment> {
    if w > 0 {
        s.push(Segment { from, to, width: w as i64 })
    } else {
        s
    }
}

/// The four sides of the outline of `rect`, `width` thick and drawn outside
/// `rect`, each made thinner where it would leave `bounds` and dropped where
/// nothing of it is left; in the order top, right, bottom, left.
pub open spec fn cropped_stroke_spec(rect: Rect, bounds: Rect, width: int) -> Seq<Segment> {
    let h = width / 2;
    let (l, t, r, b) = (rect.min.x as int, rect.min.y as int, rect.max.x as int, rect.max.y as int);
    let top = t - (if t - width > bounds.min.y { t - width } else { bounds.min.y as int });
    let right = (if width + r < bounds.max.x { width + r } else { bounds.max.x as int }) - r;
    let bottom = (if width + b < bounds.max.y { width + b } else { bounds.max.y as int }) - b;
    let left = l - (if l - width > bounds.min.x { l - width } else { bounds.min.x as int });
    let s0 = push_if(seq![], top, clamp_point(bounds, (l - h, t - h)), clamp_point(bounds, (r + h, t - h)));
    let s1 = push_if(s0, right, clamp_point(bounds, (r + h, t - h)), clamp_point(bounds, (r + h, b + h)));
    let s2 = push_if(s1, bottom, clamp_point(bounds, (r + h, b + h)), clamp_point(bounds, (l - h, b + h)));
    push_if(s2, left, clamp_point(bounds, (l - h, b + h)), clamp_point(bounds, (l - h, t - h)))
}

fn clamp_coord(v: i64, lo: i64, hi: i64) -> (r: i64)
    requires
        lo <= hi,
    ensures
        r == clamp_spec(v as int, lo as int, hi as int),
{
    if v < lo {
        lo
    } else if v > hi {
        hi
    } else {
        v
    }
}

fn point_in(b: Rect, x: i64, y: i64) -> (r: Vec2)
    requires
        b.min.x <= b.max.x,
        b.min.y <= b.max.y,
    ensures
        r == clamp_point(b, (x as int, y as int)),
{
    Vec2 { x: clamp_coord(x, b.min.x, b.max.x), y: clamp_coord(y, b.min.y, b.max.y) }
}

/// Coordinates that the outline computations can take.
pub open spec fn near(v: int) -> bool {
    -2 * COORD_LIMIT <= v <= 2 * COORD_LIMIT
}

/// The segments that outline `rect` with a stroke of `width`, cut to
/// `bounds`.
pub fn rect_stroke_cropped(rect: Rect, bounds: Rect, width: i64) -> (r: Vec<Segment>)
    requires
        near(rect.min.x as int),
        near(rect.min.y as int),
        near(rect.max.x as int),
        near(rect.max.y as int),
        bounds.in_bounds(),
        bounds.min.x <= bounds.max.x,
        bounds.min.y <= bounds.max.y,
        0 <= width <= COORD_LIMIT,
    ensures
        r@ == cropped_stroke_spec(rect, bounds, width as int),
{
    let h = width / 2;
    let (l, t, rt, b) = (rect.min.x, rect.min.y, rect.max.x, rect.max.y);
    let top = t - (if t - width > bounds.min.y { t - width } else { bounds.min.y });
    let right = (if width + rt < bounds.max.x { width + rt } else { bounds.max.x }) - rt;
    let bottom = (if width + b < bounds.max.y { width + b } else { bounds.max.y }) - b;
    let left = l - (if l - width > bounds.min.x { l - width } else { bounds.min.x });
    let mut r: Vec<Segment> = Vec::new();
    if top > 0 {
        r.push(Segment { from: point_in(bounds, l - h, t - h), to: point_in(bounds, rt + h, t - h), width: top });
    }
    if right > 0 {
        r.push(Segment { from: point_in(bounds, rt + h, t - h), to: point_in(bounds, rt + h, b + h), width: right });
    }
    if bottom > 0 {
        r.push(Segment { from: point_in(bounds, rt + h, b + h), to: point_in(bounds, l - h, b + h), width: bottom });
    }
    if left > 0 {
        r.push(Segment { from: point_in(bounds, l - h, b + h), to: point_in(bounds, l - h, t - h), width: left });
    }
    assert(r@ =~= cropped_stroke_spec(rect, bounds, width as int));
    r
}

} // verus!
