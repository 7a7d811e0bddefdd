//! Integer fixed-point geometry.
//!
//! Screen positions and world positions are `i64` counts of sub-units:
//! [`UNITS_PER_PIXEL`] of them make one logical point on screen, and one image
//! pixel in world space. A scale factor is an `i64` count of
//! `1 / SCALE_ONE` steps, and a texture coordinate an `i64` count of
//! `1 / UV_ONE` steps.
use vstd::prelude::*;

verus! {

/// Sub-units in one logical point (screen) or one image pixel (world).
pub const UNITS_PER_PIXEL: i64 = 64;

/// The fixed-point value of the scale factor `1.0`.
pub const SCALE_ONE: i64 = 65536;

/// The fixed-point value of the texture coordinate `1.0`.
pub const UV_ONE: i64 = 65536;

/// Bound on the magnitude of every coordinate that enters the library.
pub const COORD_LIMIT: i64 = 1099511627776;

/// A point or a vector.
#[derive(Clone, Copy, Debug, PartialEq, Eq, Structural)]
pub struct Vec2 {
    pub x: i64,
    pub y: i64,
}

/// An axis-aligned rectangle from `min` (top left) to `max` (bottom right).
#[derive(Clone, Copy, Debug, PartialEq, Eq, Structural)]
pub struct Rect {
    pub min: Vec2,
    pub max: Vec2,
}

impl View for Vec2 {
    type V = (int, int);

    open spec fn view(&self) -> (int, int) {
        (self.x as int, self.y as int)
    }
}

/// `|c| <= COORD_LIMIT`.
pub open spec fn coord_ok(c: int) -> bool {
    -COORD_LIMIT <= c <= COORD_LIMIT
}

impl Vec2 {
    pub open spec fn in_bounds(self) -> bool {
        coord_ok(self.x as int) && coord_ok(self.y as int)
    }

    pub fn new(x: i64, y: i64) -> (r: Vec2)
        ensures
            r.x == x,
            r.y == y,
    {
        Vec2 { x, y }
    }
}

impl Rect {
    pub open spec fn in_bounds(self) -> bool {
        self.min.in_bounds() && self.max.in_bounds()
    }

    pub open spec fn zero_spec() -> Rect {
        Rect { min: Vec2 { x: 0, y: 0 }, max: Vec2 { x: 0, y: 0 } }
    }

    /// The rectangle at the origin with no extent.
    pub fn zero() -> (r: Rect)
        ensures
            r == Rect::zero_spec(),
    {
        Rect { min: Vec2 { x: 0, y: 0 }, max: Vec2 { x: 0, y: 0 } }
    }

    pub fn left_top(&self) -> (r: Vec2)
        ensures
            r == self.min,
    {
        self.min
    }

    pub fn right_top(&self) -> (r: Vec2)
        ensures
            r.x == self.max.x,
            r.y == self.min.y,
    {
        Vec2 { x: self.max.x, y: self.min.y }
    }

    pub fn right_bottom(&self) -> (r: Vec2)
        ensures
            r == self.max,
    {
        self.max
    }

    pub fn left_bottom(&self) -> (r: Vec2)
        ensures
            r.x == self.min.x,
            r.y == self.max.y,
    {
        Vec2 { x: self.min.x, y: self.max.y }
    }

    /// Whether `p` lies in the rectangle, edges included.
    pub open spec fn contains_spec(self, p: Vec2) -> bool {
        self.min.x <= p.x <= self.max.x && self.min.y <= p.y <= self.max.y
    }

    pub fn contains(&self, p: Vec2) -> (r: bool)
        ensures
            r == self.contains_spec(p),
    {
        self.min.x <= p.x && p.x <= self.max.x && self.min.y <= p.y && p.y <= self.max.y
    }

    /// Whether the rectangle has a positive extent on both axes.
    pub fn is_positive(&self) -> (r: bool)
        ensures
            r == (self.min.x < self.max.x && self.min.y < self.max.y),
    {
        self.min.x < self.max.x && self.min.y < self.max.y
    }
}

proof fn lemma_floor_div_negative(a: int, d: int)
    requires
        d > 0,
        a < 0,
    ensures
        a / d == -((-a - 1) / d) - 1,
{
    let n = -a - 1;
    let m = n % d;
    vstd::arithmetic::div_mod::lemma_fundamental_div_mod(n, d);
    assert(a == d * (-(n / d) - 1) + (d - 1 - m)) by (nonlinear_arith)
        requires
            n == d * (n / d) + m,
            a == -n - 1,
    ;
    vstd::arithmetic::div_mod::lemma_fundamental_div_mod_converse(a, d, -(n / d) - 1, d - 1 - m);
}

/// Dividing by a positive number keeps a value between zero and itself.
pub(crate) proof fn lemma_floor_div_bounds(a: int, d: int)
    requires
        d > 0,
    ensures
        a >= 0 ==> 0 <= a / d <= a,
        a < 0 ==> a <= a / d < 0,
{
    vstd::arithmetic::div_mod::lemma_fundamental_div_mod(a, d);
    let q = a / d;
    let m = a % d;
    assert(a >= 0 ==> 0 <= q <= a) by (nonlinear_arith)
        requires
            a == d * q + m,
            0 <= m < d,
            d > 0,
    ;
    assert(a < 0 ==> a <= q < 0) by (nonlinear_arith)
        requires
            a == d * q + m,
            0 <= m < d,
            d > 0,
    ;
}

/// `a / d` rounded towards negative infinity (the `/` of `int` for `d > 0`).
pub fn floor_div(a: i128, d: i128) -> (r: i128)
    requires
        d > 0,
        a > i128::MIN,
    ensures
        r == a / d,
        a >= 0 ==> 0 <= r <= a,
        a < 0 ==> a <= r < 0,
{
    proof {
        lemma_floor_div_bounds(a as int, d as int);
    }
    if a >= 0 {
        a / d
    } else {
        let q = (-a - 1) / d;
        proof {
            lemma_floor_div_negative(a as int, d as int);
        }
        -q - 1
    }
}

/// `a / d` rounded towards positive infinity.
pub fn ceil_div(a: i128, d: i128) -> (r: i128)
    requires
        d > 0,
        a > i128::MIN + 1,
    ensures
        r == -((-(a as int)) / (d as int)),
{
    -floor_div(-a, d)
}

/// `v` limited to `lo ..= hi`.
pub open spec fn clamp_spec(v: int, lo: int, hi: int) -> int {
    if v < lo {
        lo
    } else if v > hi {
        hi
    } else {
        v
    }
}

pub fn clamp_i128(v: i128, lo: i128, hi: i128) -> (r: i128)
    requires
        lo <= hi,
    ensures
        r == clamp_spec(v as int, lo as int, hi as int),
{
    if v < lo {
        lo
    } else if v > hi {
        hi
    } else {
        v
    }
}

} // verus!
