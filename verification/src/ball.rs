//! The ball: position integration with the field boundary policy, and the
//! collision query against a paddle's rectangle.

use vstd::prelude::*;

use crate::geometry::circle_rect_collides;
use crate::geometry::spec_collides;
use crate::geometry::Circle;
use crate::geometry::Rect;
use crate::geometry::Vector2;
use crate::COORD_HARD_LIMIT;
use crate::COORD_LIMIT;
use crate::DIM_LIMIT;
use crate::VEL_LIMIT;
use crate::WINDOW_HEIGHT;
use crate::WINDOW_WIDTH;

verus! {

/// The ball: its center position and velocity, and its sprite's width in
/// milliunits. The collision radius is deliberately the full sprite width,
/// not a half-width.
#[derive(Clone, Copy, PartialEq, Eq, Structural, Debug)]
pub struct Ball {
    pub position: Vector2,
    pub velocity: Vector2,
    pub width: i64,
}

/// The x coordinate after one integration step: straight-line motion, then a
/// reset to the field's center if the new x left the horizontal range.
pub open spec fn spec_integrated_x(px: int, vx: int, dt: int) -> int {
    let nx = px + vx * dt;
    if nx < 0 || nx > WINDOW_WIDTH {
        WINDOW_WIDTH as int / 2
    } else {
        nx
    }
}

/// The y coordinate after one integration step: straight-line motion, reset
/// to the field's center only when the new x left the horizontal range.
pub open spec fn spec_integrated_y(px: int, py: int, vx: int, vy: int, dt: int) -> int {
    let nx = px + vx * dt;
    let ny = py + vy * dt;
    if nx < 0 || nx > WINDOW_WIDTH {
        WINDOW_HEIGHT as int / 2
    } else {
        ny
    }
}

/// The vertical velocity after one integration step: inverted exactly once
/// when straight-line motion left the vertical range. This test reads the
/// integrated y itself, independently of the horizontal reset, so both
/// boundary reactions can fire in the same step.
pub open spec fn spec_bounced_vy(py: int, vy: int, dt: int) -> int {
    let ny = py + vy * dt;
    if ny < 0 || ny > WINDOW_HEIGHT {
        -vy
    } else {
        vy
    }
}

impl Ball {
    /// Magnitude bounds under which one frame of ball motion and every
    /// collision query stays within 64-bit arithmetic.
    pub open spec fn in_bounds(self) -> bool {
        &&& -COORD_LIMIT <= self.position.x <= COORD_LIMIT
        &&& -COORD_LIMIT <= self.position.y <= COORD_LIMIT
        &&& -VEL_LIMIT <= self.velocity.x <= VEL_LIMIT
        &&& -VEL_LIMIT <= self.velocity.y <= VEL_LIMIT
        &&& 0 <= self.width <= DIM_LIMIT
    }

    /// The ball's collision circle in the spec world: centered at the ball,
    /// with the full sprite width as radius.
    pub open spec fn spec_circle(self) -> Circle {
        Circle { position: self.position, radius: self.width }
    }

    /// The ball's collision circle: centered at the ball's position, with
    /// the full sprite width as radius.
    pub fn get_circle(&self) -> (c: Circle)
        ensures
            c == self.spec_circle(),
    {
        Circle { position: self.position, radius: self.width }
    }

    /// Advances the position by `velocity * delta_time`, then applies the
    /// boundary policy: integrating past the horizontal range resets the
    /// position to the field's center and leaves the velocity untouched;
    /// integrating past the vertical range inverts the vertical velocity and
    /// does not move the position. The two checks are independent — both
    /// judge the straight-line motion, and both may fire in the same call.
    pub fn update_position(&mut self, delta_time: i64)
        requires
            delta_time >= 0,
            i64::MIN <= old(self).velocity.x * delta_time <= i64::MAX,
            i64::MIN <= old(self).velocity.y * delta_time <= i64::MAX,
            i64::MIN <= old(self).position.x + old(self).velocity.x * delta_time <= i64::MAX,
            i64::MIN <= old(self).position.y + old(self).velocity.y * delta_time <= i64::MAX,
            old(self).velocity.y != i64::MIN,
        ensures
            final(self).position.x == spec_integrated_x(
                old(self).position.x as int,
                old(self).velocity.x as int,
                delta_time as int,
            ),
            final(self).position.y == spec_integrated_y(
                old(self).position.x as int,
                old(self).position.y as int,
                old(self).velocity.x as int,
                old(self).velocity.y as int,
                delta_time as int,
            ),
            final(self).velocity.x == old(self).velocity.x,
            final(self).velocity.y == spec_bounced_vy(
                old(self).position.y as int,
                old(self).velocity.y as int,
                delta_time as int,
            ),
            final(self).width == old(self).width,
    {
        let step = Vector2 { x: self.velocity.x * delta_time, y: self.velocity.y * delta_time };
        let integrated = self.position.plus(step);
        self.position = integrated;
        if integrated.x < 0 || integrated.x > WINDOW_WIDTH {
            self.position = Vector2 { x: WINDOW_WIDTH / 2, y: WINDOW_HEIGHT / 2 };
        }
        if integrated.y < 0 || integrated.y > WINDOW_HEIGHT {
            self.velocity.y = -self.velocity.y;
        }
    }

    /// Circle-vs-rectangle collision test between the ball's circle and the
    /// given rectangle.
    pub fn check_collision(&self, rect: &Rect) -> (hit: bool)
        requires
            -COORD_HARD_LIMIT <= self.position.x <= COORD_HARD_LIMIT,
            -COORD_HARD_LIMIT <= self.position.y <= COORD_HARD_LIMIT,
            -COORD_HARD_LIMIT <= rect.position.x <= COORD_HARD_LIMIT,
            -COORD_HARD_LIMIT <= rect.position.y <= COORD_HARD_LIMIT,
            0 <= rect.dimensions.x <= DIM_LIMIT,
            0 <= rect.dimensions.y <= DIM_LIMIT,
            0 <= self.width <= DIM_LIMIT,
        ensures
            hit == spec_collides(self.spec_circle(), *rect),
    {
        let circle = self.get_circle();
        circle_rect_collides(&circle, rect)
    }

    /// Flips the sign of both velocity components; the collision response
    /// applied on any paddle hit.
    pub fn invert_velocity(&mut self)
        requires
            old(self).velocity.x != i64::MIN,
            old(self).velocity.y != i64::MIN,
        ensures
            final(self).velocity.x == -old(self).velocity.x,
            final(self).velocity.y == -old(self).velocity.y,
            final(self).position == old(self).position,
            final(self).width == old(self).width,
    {
        self.velocity = self.velocity.scaled(-1);
    }
}

/// A ball with zero velocity that starts inside the horizontal range keeps
/// its exact position through integration, whatever the delta time.
pub proof fn lemma_zero_velocity_position_unchanged(b: Ball, dt: int)
    requires
        b.velocity.x == 0,
        b.velocity.y == 0,
        0 <= b.position.x <= WINDOW_WIDTH,
    ensures
        spec_integrated_x(b.position.x as int, b.velocity.x as int, dt) == b.position.x,
        spec_integrated_y(
            b.position.x as int,
            b.position.y as int,
            b.velocity.x as int,
            b.velocity.y as int,
            dt,
        ) == b.position.y,
{
    assert(0 * dt == 0) by (nonlinear_arith);
}

/// Leaving the horizontal range resets the position to exactly the field's
/// center. The reset itself touches no velocity component: the vertical
/// velocity still follows only the independent vertical-range test, so it is
/// unchanged whenever the integrated y stayed in range.
pub proof fn lemma_horizontal_exit_resets(b: Ball, dt: int)
    requires
        b.position.x + b.velocity.x * dt < 0 || b.position.x + b.velocity.x * dt > WINDOW_WIDTH,
    ensures
        spec_integrated_x(b.position.x as int, b.velocity.x as int, dt) == WINDOW_WIDTH as int / 2,
        spec_integrated_y(
            b.position.x as int,
            b.position.y as int,
            b.velocity.x as int,
            b.velocity.y as int,
            dt,
        ) == WINDOW_HEIGHT as int / 2,
        0 <= b.position.y + b.velocity.y * dt <= WINDOW_HEIGHT ==> spec_bounced_vy(
            b.position.y as int,
            b.velocity.y as int,
            dt,
        ) == b.velocity.y,
{
}

/// Integrating past the vertical range inverts the vertical velocity exactly
/// once and leaves the horizontal velocity untouched, whatever the
/// horizontal check does; while the step stays inside the horizontal range,
/// the position is left as integration computed it.
pub proof fn lemma_vertical_exit_bounces(b: Ball, dt: int)
    requires
        b.position.y + b.velocity.y * dt < 0 || b.position.y + b.velocity.y * dt > WINDOW_HEIGHT,
    ensures
        spec_bounced_vy(b.position.y as int, b.velocity.y as int, dt) == -b.velocity.y,
        0 <= b.position.x + b.velocity.x * dt <= WINDOW_WIDTH ==> spec_integrated_x(
            b.position.x as int,
            b.velocity.x as int,
            dt,
        ) == b.position.x + b.velocity.x * dt,
        0 <= b.position.x + b.velocity.x * dt <= WINDOW_WIDTH ==> spec_integrated_y(
            b.position.x as int,
            b.position.y as int,
            b.velocity.x as int,
            b.velocity.y as int,
            dt,
        ) == b.position.y + b.velocity.y * dt,
{
}

/// A step that leaves both ranges at once fires both boundary reactions:
/// the position resets to the field's center and the vertical velocity
/// inverts in the same call.
pub proof fn lemma_combined_exit(b: Ball, dt: int)
    requires
        b.position.x + b.velocity.x * dt < 0 || b.position.x + b.velocity.x * dt > WINDOW_WIDTH,
        b.position.y + b.velocity.y * dt < 0 || b.position.y + b.velocity.y * dt > WINDOW_HEIGHT,
    ensures
        spec_integrated_x(b.position.x as int, b.velocity.x as int, dt) == WINDOW_WIDTH as int / 2,
        spec_integrated_y(
            b.position.x as int,
            b.position.y as int,
            b.velocity.x as int,
            b.velocity.y as int,
            dt,
        ) == WINDOW_HEIGHT as int / 2,
        spec_bounced_vy(b.position.y as int, b.velocity.y as int, dt) == -b.velocity.y,
{
}

} // verus!
