//! Plane geometry: vectors, rectangles, circles, and the
//! circle-vs-rectangle overlap test used for paddle collisions.

use vstd::prelude::*;

use crate::COORD_HARD_LIMIT;
use crate::DIM_LIMIT;

verus! {

/// A two-dimensional vector of milliunit coordinates; used both for
/// positions and for velocities.
#[derive(Clone, Copy, PartialEq, Eq, Structural, Debug)]
pub struct Vector2 {
    pub x: i64,
    pub y: i64,
}

impl Vector2 {
    pub fn new(x: i64, y: i64) -> (v: Vector2)
        ensures
            v.x == x,
            v.y == y,
    {
        Vector2 { x, y }
    }

    /// Component-wise vector addition.
    pub fn plus(self, other: Vector2) -> (v: Vector2)
        requires
            i64::MIN <= self.x + other.x <= i64::MAX,
            i64::MIN <= self.y + other.y <= i64::MAX,
        ensures
            v.x == self.x + other.x,
            v.y == self.y + other.y,
    {
        Vector2 { x: self.x + other.x, y: self.y + other.y }
    }

    /// Multiplication by a scalar.
    pub fn scaled(self, k: i64) -> (v: Vector2)
        requires
            i64::MIN <= self.x * k <= i64::MAX,
            i64::MIN <= self.y * k <= i64::MAX,
        ensures
            v.x == self.x * k,
            v.y == self.y * k,
    {
        Vector2 { x: self.x * k, y: self.y * k }
    }
}

/// An axis-aligned box given by its center and its full extents.
/// In collision queries the extents field carries values that are already
/// half the sprite size, and the overlap test halves them once more; both
/// halvings together give the effective collision box.
#[derive(Clone, Copy, PartialEq, Eq, Structural, Debug)]
pub struct Rect {
    pub position: Vector2,
    pub dimensions: Vector2,
}

/// A circle given by its center and radius.
#[derive(Clone, Copy, PartialEq, Eq, Structural, Debug)]
pub struct Circle {
    pub position: Vector2,
    pub radius: i64,
}

/// Absolute value of a mathematical integer.
pub open spec fn abs_of(x: int) -> int {
    if x < 0 {
        -x
    } else {
        x
    }
}

/// Circle-vs-rectangle overlap, the clamped-distance test, over mathematical
/// integers. `dim_x` and `dim_y` are the rectangle's stored extents; the
/// half-extents used by the test are `dim_x / 2` and `dim_y / 2`.
///
/// The circle misses when its center is farther than half-extent plus radius
/// from the rectangle's center along either axis; it hits when its center
/// projects into either axis slab; otherwise it hits exactly when the nearest
/// corner lies within the radius.
pub open spec fn spec_circle_rect_collides(
    cx: int,
    cy: int,
    rx: int,
    ry: int,
    dim_x: int,
    dim_y: int,
    radius: int,
) -> bool {
    let dx = abs_of(cx - rx);
    let dy = abs_of(cy - ry);
    let hw = dim_x / 2;
    let hh = dim_y / 2;
    if dx > hw + radius || dy > hh + radius {
        false
    } else if dx <= hw || dy <= hh {
        true
    } else {
        (dx - hw) * (dx - hw) + (dy - hh) * (dy - hh) <= radius * radius
    }
}

/// Overlap test phrased on the geometric types.
pub open spec fn spec_collides(c: Circle, r: Rect) -> bool {
    spec_circle_rect_collides(
        c.position.x as int,
        c.position.y as int,
        r.position.x as int,
        r.position.y as int,
        r.dimensions.x as int,
        r.dimensions.y as int,
        c.radius as int,
    )
}

/// A circle whose center lies inside both axis slabs of the rectangle
/// always overlaps it.
pub proof fn lemma_collides_inside_slab(c: Circle, r: Rect)
    requires
        c.radius >= 0,
        abs_of(c.position.x - r.position.x) <= r.dimensions.x as int / 2,
        abs_of(c.position.y - r.position.y) <= r.dimensions.y as int / 2,
    ensures
        spec_collides(c, r),
{
}

/// A circle whose center is farther than half-extent plus radius from the
/// rectangle's center along either axis never overlaps it.
pub proof fn lemma_collides_separated_axis(c: Circle, r: Rect)
    requires
        abs_of(c.position.x - r.position.x) > r.dimensions.x as int / 2 + c.radius || abs_of(
            c.position.y - r.position.y,
        ) > r.dimensions.y as int / 2 + c.radius,
    ensures
        !spec_collides(c, r),
{
}

/// Exact absolute value of an `i64`.
pub fn abs_i64(x: i64) -> (r: i64)
    requires
        x != i64::MIN,
    ensures
        r == abs_of(x as int),
{
    if x < 0 {
        -x
    } else {
        x
    }
}

/// Executable circle-vs-rectangle overlap test; returns exactly what
/// `spec_collides` states. The coordinate and dimension bounds keep every
/// intermediate product within an `i64`.
pub fn circle_rect_collides(c: &Circle, r: &Rect) -> (hit: bool)
    requires
        -COORD_HARD_LIMIT <= c.position.x <= COORD_HARD_LIMIT,
        -COORD_HARD_LIMIT <= c.position.y <= COORD_HARD_LIMIT,
        -COORD_HARD_LIMIT <= r.position.x <= COORD_HARD_LIMIT,
        -COORD_HARD_LIMIT <= r.position.y <= COORD_HARD_LIMIT,
        0 <= r.dimensions.x <= DIM_LIMIT,
        0 <= r.dimensions.y <= DIM_LIMIT,
        0 <= c.radius <= DIM_LIMIT,
    ensures
        hit == spec_collides(*c, *r),
{
    let dx = abs_i64(c.position.x - r.position.x);
    let dy = abs_i64(c.position.y - r.position.y);
    let hw = r.dimensions.x / 2;
    let hh = r.dimensions.y / 2;
    if dx > hw + c.radius {
        return false;
    }
    if dy > hh + c.radius {
        return false;
    }
    if dx <= hw {
        return true;
    }
    if dy <= hh {
        return true;
    }
    let corner_x = dx - hw;
    let corner_y = dy - hh;
    proof {
        assert(0 < corner_x <= c.radius && 0 < corner_y <= c.radius);
        assert(corner_x * corner_x <= DIM_LIMIT * DIM_LIMIT) by (nonlinear_arith)
            requires
                0 < corner_x <= DIM_LIMIT,
        ;
        assert(corner_y * corner_y <= DIM_LIMIT * DIM_LIMIT) by (nonlinear_arith)
            requires
                0 < corner_y <= DIM_LIMIT,
        ;
        assert(0 <= c.radius * c.radius <= DIM_LIMIT * DIM_LIMIT) by (nonlinear_arith)
            requires
                0 <= c.radius <= DIM_LIMIT,
        ;
    }
    corner_x * corner_x + corner_y * corner_y <= c.radius * c.radius
}

} // verus!
