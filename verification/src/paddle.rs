//! The paddle: a sprite that moves vertically at a fixed speed and exposes
//! an axis-aligned bounding rectangle for collision queries.

use vstd::prelude::*;

use crate::geometry::Rect;
use crate::geometry::Vector2;
use crate::COORD_LIMIT;
use crate::DIM_LIMIT;
use crate::SPEED_LIMIT;

verus! {

/// A paddle: its center position, its speed in milliunits per millisecond,
/// and its sprite's width and height in milliunits.
#[derive(Clone, Copy, PartialEq, Eq, Structural, Debug)]
pub struct Paddle {
    pub position: Vector2,
    pub speed: i64,
    pub width: i64,
    pub height: i64,
}

impl Paddle {
    /// Magnitude bounds under which one frame of paddle motion and every
    /// collision query stays within 64-bit arithmetic.
    pub open spec fn in_bounds(self) -> bool {
        &&& -COORD_LIMIT <= self.position.x <= COORD_LIMIT
        &&& -COORD_LIMIT <= self.position.y <= COORD_LIMIT
        &&& 0 <= self.speed <= SPEED_LIMIT
        &&& 0 <= self.width <= DIM_LIMIT
        &&& 0 <= self.height <= DIM_LIMIT
    }

    /// Moves the paddle vertically by `speed * axis_value * delta_time`
    /// milliunits: down for a positive axis, up for a negative one. The
    /// position is not clamped to the field, so paddles may leave the screen.
    pub fn movement(&mut self, axis_value: i64, delta_time: i64)
        requires
            -1 <= axis_value <= 1,
            delta_time >= 0,
            old(self).speed >= 0,
            old(self).speed * delta_time <= i64::MAX,
            i64::MIN <= old(self).position.y - old(self).speed * delta_time,
            old(self).position.y + old(self).speed * delta_time <= i64::MAX,
        ensures
            final(self).position.y == old(self).position.y + old(self).speed * axis_value
                * delta_time,
            final(self).position.x == old(self).position.x,
            final(self).speed == old(self).speed,
            final(self).width == old(self).width,
            final(self).height == old(self).height,
    {
        proof {
            let s = self.speed as int;
            let d = delta_time as int;
            assert(axis_value == -1 || axis_value == 0 || axis_value == 1);
            assert(s * -1 * d == -(s * d)) by (nonlinear_arith);
            assert(s * 0 * d == 0) by (nonlinear_arith);
            assert(s * 1 * d == s * d) by (nonlinear_arith);
        }
        self.position.y = self.position.y + (self.speed * axis_value) * delta_time;
    }

    /// The paddle's bounding rectangle: centered at the paddle's position,
    /// with extents of half the sprite size on each axis.
    pub fn get_rect(&self) -> (r: Rect)
        requires
            self.width >= 0,
            self.height >= 0,
        ensures
            r.position == self.position,
            r.dimensions.x == self.width as int / 2,
            r.dimensions.y == self.height as int / 2,
    {
        Rect {
            position: self.position,
            dimensions: Vector2 { x: self.width / 2, y: self.height / 2 },
        }
    }
}

} // verus!
