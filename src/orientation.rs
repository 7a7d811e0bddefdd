//! Quarter-turn rotations and axis flips of texture coordinates.
use vstd::prelude::*;
use crate::geometry::{coord_ok, Rect, Vec2, UV_ONE};

verus! {

/// Sign applied to the x axis by a rotation of `k` quarter turns.
pub open spec fn sign_x(k: nat) -> int {
    if (k / 2) % 2 == 0 {
        1
    } else {
        -1
    }
}

/// Sign applied to the y axis by a rotation of `k` quarter turns.
pub open spec fn sign_y(k: nat) -> int {
    if ((k + 1) / 2) % 2 == 0 {
        1
    } else {
        -1
    }
}

/// `v` turned by `k` quarter turns around `anchor`: the axes are swapped when
/// `k` is odd, then each axis is mirrored around the anchor as its sign says.
pub open spec fn rotated(v: (int, int), anchor: (int, int), k: nat) -> (int, int) {
    let q = k % 4;
    let s = if q % 2 == 1 {
        (v.1, v.0)
    } else {
        v
    };
    (sign_x(q) * (s.0 - anchor.0) + anchor.0, sign_y(q) * (s.1 - anchor.1) + anchor.1)
}

/// `v` turned by one quarter turn around `anchor`, `k` times over.
pub open spec fn rotated_steps(v: (int, int), anchor: (int, int), k: nat) -> (int, int)
    decreases k,
{
    if k == 0 {
        v
    } else {
        rotated(rotated_steps(v, anchor, (k - 1) as nat), anchor, 1)
    }
}

/// Rotating by `k + 4` quarter turns is rotating by `k`; by zero is the identity;
/// four single quarter turns give back the start.
pub proof fn lemma_rotation_period(v: (int, int), anchor: (int, int), k: nat)
    ensures
        rotated(v, anchor, k + 4) == rotated(v, anchor, k),
        rotated(v, anchor, 0) == v,
        rotated(rotated(rotated(rotated(v, anchor, 1), anchor, 1), anchor, 1), anchor, 1) == v,
{
    assert((k + 4) % 4 == k % 4);
}

proof fn lemma_rotated_cases(v: (int, int), anchor: (int, int), k: nat)
    ensures
        k % 4 == 0 ==> rotated(v, anchor, k) == v,
        k % 4 == 1 ==> rotated(v, anchor, k) == (v.1, 2 * anchor.1 - v.0),
        k % 4 == 2 ==> rotated(v, anchor, k) == (2 * anchor.0 - v.0, 2 * anchor.1 - v.1),
        k % 4 == 3 ==> rotated(v, anchor, k) == (2 * anchor.0 - v.1, v.0),
{
    assert(sign_x(0) == 1 && sign_y(0) == 1);
    assert(sign_x(1) == 1 && sign_y(1) == -1);
    assert(sign_x(2) == -1 && sign_y(2) == -1);
    assert(sign_x(3) == -1 && sign_y(3) == 1);
}

/// Around an anchor on the diagonal, `k` quarter turns at once equal `k`
/// single quarter turns.
pub proof fn lemma_rotation_composes(v: (int, int), anchor: (int, int), k: nat)
    requires
        anchor.0 == anchor.1,
    ensures
        rotated(v, anchor, k) == rotated_steps(v, anchor, k),
    decreases k,
{
    if k > 0 {
        let j = (k - 1) as nat;
        lemma_rotation_composes(v, anchor, j);
        let w = rotated(v, anchor, j);
        assert(k % 4 == (j % 4 + 1) % 4);
        lemma_rotated_cases(v, anchor, j);
        lemma_rotated_cases(v, anchor, k);
        lemma_rotated_cases(w, anchor, 1);
    }
}

/// Turns `v` by `amount` quarter turns around `anchor`.
pub fn rotate90_around(v: Vec2, anchor: Vec2, amount: usize) -> (r: Vec2)
    requires
        v.in_bounds(),
        anchor.in_bounds(),
    ensures
        r@ == rotated(v@, anchor@, amount as nat),
{
    let q = amount % 4;
    let s = if q % 2 == 1 {
        Vec2 { x: v.y, y: v.x }
    } else {
        v
    };
    let dx = s.x - anchor.x;
    let dy = s.y - anchor.y;
    let x = if (q / 2) % 2 == 0 {
        dx + anchor.x
    } else {
        -dx + anchor.x
    };
    let y = if ((q + 1) / 2) % 2 == 0 {
        dy + anchor.y
    } else {
        -dy + anchor.y
    };
    Vec2 { x, y }
}

/// The image's size as displayed: the texture's axes swapped for an odd
/// number of quarter turns.
pub open spec fn logical_size_spec(texture_size: Vec2, rotation: nat) -> Vec2 {
    if rotation % 2 == 0 {
        texture_size
    } else {
        Vec2 { x: texture_size.y, y: texture_size.x }
    }
}

pub fn logical_size(texture_size: Vec2, rotation: usize) -> (r: Vec2)
    ensures
        r == logical_size_spec(texture_size, rotation as nat),
{
    if rotation % 2 == 0 {
        texture_size
    } else {
        Vec2 { x: texture_size.y, y: texture_size.x }
    }
}

/// The four texture coordinates given to the image quad's corners, in the
/// order top left, top right, bottom right, bottom left.
#[derive(Clone, Copy, Debug, PartialEq, Eq, Structural)]
pub struct Quad {
    pub left_top: Vec2,
    pub right_top: Vec2,
    pub right_bottom: Vec2,
    pub left_bottom: Vec2,
}

/// `uv` with its u bounds swapped for a horizontal flip, its v bounds for a
/// vertical one.
pub open spec fn flipped(uv: Rect, flip_horizontal: bool, flip_vertical: bool) -> Rect {
    let (min_x, max_x) = if flip_horizontal {
        (uv.max.x, uv.min.x)
    } else {
        (uv.min.x, uv.max.x)
    };
    let (min_y, max_y) = if flip_vertical {
        (uv.max.y, uv.min.y)
    } else {
        (uv.min.y, uv.max.y)
    };
    Rect { min: Vec2 { x: min_x, y: min_y }, max: Vec2 { x: max_x, y: max_y } }
}

/// The centre of texture space.
pub open spec fn uv_center() -> (int, int) {
    (UV_ONE / 2, UV_ONE / 2)
}

pub open spec fn uv_ok(uv: Rect) -> bool {
    &&& coord_ok(uv.min.x as int)
    &&& coord_ok(uv.min.y as int)
    &&& coord_ok(uv.max.x as int)
    &&& coord_ok(uv.max.y as int)
}

/// `q` holds the corners of `uv` once flipped, then turned by `rotation`
/// quarter turns around the centre of texture space.
pub open spec fn is_oriented(q: Quad, uv: Rect, flip_horizontal: bool, flip_vertical: bool, rotation: nat) -> bool {
    let f = flipped(uv, flip_horizontal, flip_vertical);
    &&& q.left_top@ == rotated((f.min.x as int, f.min.y as int), uv_center(), rotation)
    &&& q.right_top@ == rotated((f.max.x as int, f.min.y as int), uv_center(), rotation)
    &&& q.right_bottom@ == rotated((f.max.x as int, f.max.y as int), uv_center(), rotation)
    &&& q.left_bottom@ == rotated((f.min.x as int, f.max.y as int), uv_center(), rotation)
}

/// Texture coordinates of the corners of `uv` once flipped, then turned by
/// `rotation` quarter turns around the centre of texture space.
pub fn oriented_uv(uv: Rect, flip_horizontal: bool, flip_vertical: bool, rotation: usize) -> (r: Quad)
    requires
        uv_ok(uv),
    ensures
        is_oriented(r, uv, flip_horizontal, flip_vertical, rotation as nat),
{
    let mut clipped = uv;
    let max = clipped.max;
    if flip_horizontal {
        clipped.max.x = clipped.min.x;
        clipped.min.x = max.x;
    }
    if flip_vertical {
        clipped.max.y = clipped.min.y;
        clipped.min.y = max.y;
    }
    let center = Vec2 { x: UV_ONE / 2, y: UV_ONE / 2 };
    Quad {
        left_top: rotate90_around(clipped.left_top(), center, rotation),
        right_top: rotate90_around(clipped.right_top(), center, rotation),
        right_bottom: rotate90_around(clipped.right_bottom(), center, rotation),
        left_bottom: rotate90_around(clipped.left_bottom(), center, rotation),
    }
}

} // verus!
