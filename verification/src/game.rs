//! The game state and its per-frame update: paddle motion from the held
//! keys, ball-vs-paddle collision response, and ball integration.

use vstd::prelude::*;

use crate::ball::spec_bounced_vy;
use crate::ball::spec_integrated_x;
use crate::ball::spec_integrated_y;
use crate::ball::Ball;
use crate::clock::Clock;
use crate::geometry::spec_circle_rect_collides;
use crate::geometry::Vector2;
use crate::paddle::Paddle;
use crate::BALL_START_VELOCITY;
use crate::COORD_LIMIT;
use crate::DELTA_TIME_CAP_MS;
use crate::DIM_LIMIT;
use crate::PADDLE_OFFSET;
use crate::PADDLE_SPEED;
use crate::SPEED_LIMIT;
use crate::VEL_LIMIT;
use crate::WINDOW_HEIGHT;
use crate::WINDOW_WIDTH;

verus! {

/// Largest sprite side length, in logical units, that the constructors
/// accept; keeps every stored dimension within `DIM_LIMIT` milliunits.
pub const MAX_SPRITE_UNITS: u32 = 1_000_000;

/// Which of the four movement keys are held this frame.
#[derive(Clone, Copy, PartialEq, Eq, Structural, Debug)]
pub struct FrameInput {
    pub paddle_1_up: bool,
    pub paddle_1_down: bool,
    pub paddle_2_up: bool,
    pub paddle_2_down: bool,
}

/// The whole game: both paddles, the ball, and the frame clock.
pub struct GameState {
    pub paddle_1: Paddle,
    pub paddle_2: Paddle,
    pub ball: Ball,
    pub clock: Clock,
}

/// Relies on rand::random_range: a value drawn from the inclusive range
/// handed to it, here 0 through 1000. Which value comes back is random, so
/// nothing more is assumed.
#[verifier::external_body]
fn random_permille() -> (r: u64)
    ensures
        r <= 1000,
{
    rand::random_range(0..=1000u64)
}

/// The ball's starting vertical velocity for the entropy value `r` in
/// 0..=1000: `r` is recentered to -1000..=1000, clamped to -500..=500 (half
/// strength at most), and applied per mille to the starting speed, rounding
/// toward zero.
pub open spec fn spec_start_velocity_y(r: int) -> int {
    let centered = 2 * r - 1000;
    let clamped = if centered < -500 {
        -500int
    } else if centered > 500 {
        500int
    } else {
        centered
    };
    if clamped >= 0 {
        clamped * BALL_START_VELOCITY / 1000
    } else {
        -(-clamped * BALL_START_VELOCITY / 1000)
    }
}

/// The net movement axis from a frame's two keys for one paddle: +1 for
/// down, -1 for up, 0 when neither or both are held.
pub open spec fn spec_axis(up: bool, down: bool) -> int {
    (if down {
        1int
    } else {
        0int
    }) - (if up {
        1int
    } else {
        0int
    })
}

/// A paddle's y position after one frame of movement: one `movement` call
/// per held key, which nets to `speed * (down - up) * delta_time`.
pub open spec fn spec_moved_y(p: Paddle, up: bool, down: bool, dt: int) -> int {
    p.position.y + p.speed * spec_axis(up, down) * dt
}

/// Whether the ball overlaps the rectangle of a paddle that has just moved
/// by this frame's keys; the rectangle carries half the sprite size as its
/// extents.
pub open spec fn spec_paddle_hit(p: Paddle, up: bool, down: bool, ball: Ball, dt: int) -> bool {
    spec_circle_rect_collides(
        ball.position.x as int,
        ball.position.y as int,
        p.position.x as int,
        spec_moved_y(p, up, down, dt),
        p.width as int / 2,
        p.height as int / 2,
        ball.width as int,
    )
}

/// The sign the frame's collision responses leave on the ball's velocity:
/// each paddle hit inverts both components, so two simultaneous hits cancel.
pub open spec fn spec_frame_bounce_sign(gs: GameState, input: FrameInput, dt: int) -> int {
    let c1 = spec_paddle_hit(gs.paddle_1, input.paddle_1_up, input.paddle_1_down, gs.ball, dt);
    let c2 = spec_paddle_hit(gs.paddle_2, input.paddle_2_up, input.paddle_2_down, gs.ball, dt);
    (if c1 {
        -1int
    } else {
        1int
    }) * (if c2 {
        -1int
    } else {
        1int
    })
}

/// Two simultaneous paddle hits cancel: the frame's two velocity inversions
/// compose to the identity, so the ball's velocity direction is unchanged.
pub proof fn lemma_double_collision_cancels(gs: GameState, input: FrameInput, dt: int)
    requires
        spec_paddle_hit(gs.paddle_1, input.paddle_1_up, input.paddle_1_down, gs.ball, dt),
        spec_paddle_hit(gs.paddle_2, input.paddle_2_up, input.paddle_2_down, gs.ball, dt),
    ensures
        spec_frame_bounce_sign(gs, input, dt) == 1,
{
    assert(spec_frame_bounce_sign(gs, input, dt) == (-1int) * (-1int));
}

/// A hit on exactly one of the two paddles inverts the ball's velocity.
pub proof fn lemma_single_collision_inverts(gs: GameState, input: FrameInput, dt: int)
    requires
        spec_paddle_hit(gs.paddle_1, input.paddle_1_up, input.paddle_1_down, gs.ball, dt)
            != spec_paddle_hit(gs.paddle_2, input.paddle_2_up, input.paddle_2_down, gs.ball, dt),
    ensures
        spec_frame_bounce_sign(gs, input, dt) == -1,
{
}

/// How one frame transforms the paddles and the ball, given the frame's
/// held keys and its delta time in milliseconds: both paddles move by their
/// net axis, the ball's velocity takes the frame's collision sign, and the
/// ball then integrates with the boundary policy. The clock is not part of
/// this relation.
pub open spec fn spec_step_rel(o: GameState, input: FrameInput, dt: int, n: GameState) -> bool {
    &&& n.paddle_1.position.x == o.paddle_1.position.x
    &&& n.paddle_1.position.y == spec_moved_y(
        o.paddle_1,
        input.paddle_1_up,
        input.paddle_1_down,
        dt,
    )
    &&& n.paddle_1.speed == o.paddle_1.speed
    &&& n.paddle_1.width == o.paddle_1.width
    &&& n.paddle_1.height == o.paddle_1.height
    &&& n.paddle_2.position.x == o.paddle_2.position.x
    &&& n.paddle_2.position.y == spec_moved_y(
        o.paddle_2,
        input.paddle_2_up,
        input.paddle_2_down,
        dt,
    )
    &&& n.paddle_2.speed == o.paddle_2.speed
    &&& n.paddle_2.width == o.paddle_2.width
    &&& n.paddle_2.height == o.paddle_2.height
    &&& ({
        let s = spec_frame_bounce_sign(o, input, dt);
        let vx = s * o.ball.velocity.x;
        let vy = s * o.ball.velocity.y;
        &&& n.ball.position.x == spec_integrated_x(o.ball.position.x as int, vx, dt)
        &&& n.ball.position.y == spec_integrated_y(
            o.ball.position.x as int,
            o.ball.position.y as int,
            vx,
            vy,
            dt,
        )
        &&& n.ball.velocity.x == vx
        &&& n.ball.velocity.y == spec_bounced_vy(o.ball.position.y as int, vy, dt)
        &&& n.ball.width == o.ball.width
    })
}

impl GameState {
    /// Magnitude bounds under which one frame update stays within 64-bit
    /// arithmetic.
    pub open spec fn in_bounds(self) -> bool {
        &&& self.paddle_1.in_bounds()
        &&& self.paddle_2.in_bounds()
        &&& self.ball.in_bounds()
    }

    /// The delta time of the last frame, in milliseconds.
    pub fn delta_time(&self) -> (d: i64)
        ensures
            d == self.clock.delta_ms,
    {
        self.clock.delta_ms
    }

    /// Builds the starting game state from the sprites' pixel sizes and the
    /// given entropy value: both paddles centered vertically at their fixed
    /// horizontal offsets with the fixed speed, the ball centered with the
    /// fixed horizontal speed and the entropy-derived vertical velocity, and
    /// a fresh clock.
    pub fn new_with_entropy(paddle_width: u32, paddle_height: u32, ball_width: u32, r: u64) -> (gs:
        GameState)
        requires
            r <= 1000,
            paddle_width <= MAX_SPRITE_UNITS,
            paddle_height <= MAX_SPRITE_UNITS,
            ball_width <= MAX_SPRITE_UNITS,
        ensures
            gs.paddle_1.position.x == PADDLE_OFFSET,
            gs.paddle_1.position.y == WINDOW_HEIGHT / 2,
            gs.paddle_2.position.x == WINDOW_WIDTH - PADDLE_OFFSET,
            gs.paddle_2.position.y == WINDOW_HEIGHT / 2,
            gs.paddle_1.speed == PADDLE_SPEED,
            gs.paddle_2.speed == PADDLE_SPEED,
            gs.paddle_1.width == paddle_width * 1000,
            gs.paddle_1.height == paddle_height * 1000,
            gs.paddle_2.width == paddle_width * 1000,
            gs.paddle_2.height == paddle_height * 1000,
            gs.ball.position.x == WINDOW_WIDTH / 2,
            gs.ball.position.y == WINDOW_HEIGHT / 2,
            gs.ball.velocity.x == BALL_START_VELOCITY,
            gs.ball.velocity.y == spec_start_velocity_y(r as int),
            -100 <= gs.ball.velocity.y <= 100,
            gs.ball.width == ball_width * 1000,
            gs.clock.wf(),
            gs.clock.delta_ms == crate::START_DELTA_MS,
            gs.in_bounds(),
    {
        let r_whole = r as i64;
        let centered = 2 * r_whole - 1000;
        let clamped = if centered < -500 {
            -500
        } else if centered > 500 {
            500
        } else {
            centered
        };
        let vel_y = if clamped >= 0 {
            (clamped * BALL_START_VELOCITY) / 1000
        } else {
            -((-clamped * BALL_START_VELOCITY) / 1000)
        };
        GameState {
            paddle_1: Paddle {
                position: Vector2 { x: PADDLE_OFFSET, y: WINDOW_HEIGHT / 2 },
                speed: PADDLE_SPEED,
                width: (paddle_width as i64) * 1000,
                height: (paddle_height as i64) * 1000,
            },
            paddle_2: Paddle {
                position: Vector2 { x: WINDOW_WIDTH - PADDLE_OFFSET, y: WINDOW_HEIGHT / 2 },
                speed: PADDLE_SPEED,
                width: (paddle_width as i64) * 1000,
                height: (paddle_height as i64) * 1000,
            },
            ball: Ball {
                position: Vector2 { x: WINDOW_WIDTH / 2, y: WINDOW_HEIGHT / 2 },
                velocity: Vector2 { x: BALL_START_VELOCITY, y: vel_y },
                width: (ball_width as i64) * 1000,
            },
            clock: Clock::new(),
        }
    }

    /// Builds the starting game state from the sprites' pixel sizes, drawing
    /// the entropy for the ball's vertical velocity from the random number
    /// generator.
    pub fn new(paddle_width: u32, paddle_height: u32, ball_width: u32) -> (gs: GameState)
        requires
            paddle_width <= MAX_SPRITE_UNITS,
            paddle_height <= MAX_SPRITE_UNITS,
            ball_width <= MAX_SPRITE_UNITS,
        ensures
            gs.paddle_1.position.x == PADDLE_OFFSET,
            gs.paddle_1.position.y == WINDOW_HEIGHT / 2,
            gs.paddle_2.position.x == WINDOW_WIDTH - PADDLE_OFFSET,
            gs.paddle_2.position.y == WINDOW_HEIGHT / 2,
            gs.paddle_1.speed == PADDLE_SPEED,
            gs.paddle_2.speed == PADDLE_SPEED,
            gs.paddle_1.width == paddle_width * 1000,
            gs.paddle_1.height == paddle_height * 1000,
            gs.paddle_2.width == paddle_width * 1000,
            gs.paddle_2.height == paddle_height * 1000,
            gs.ball.position.x == WINDOW_WIDTH / 2,
            gs.ball.position.y == WINDOW_HEIGHT / 2,
            gs.ball.velocity.x == BALL_START_VELOCITY,
            exists|r: int| 0 <= r <= 1000 && gs.ball.velocity.y == spec_start_velocity_y(r),
            -100 <= gs.ball.velocity.y <= 100,
            gs.ball.width == ball_width * 1000,
            gs.clock.wf(),
            gs.clock.delta_ms == crate::START_DELTA_MS,
            gs.in_bounds(),
    {
        let r = random_permille();
        let gs = Self::new_with_entropy(paddle_width, paddle_height, ball_width, r);
        proof {
            assert(0 <= r as int <= 1000 && gs.ball.velocity.y == spec_start_velocity_y(r as int));
        }
        gs
    }

    /// Whether `update` may be called on this state: the magnitude bounds
    /// hold and the clock is well formed.
    pub fn ready_for_update(&self) -> (r: bool)
        ensures
            r == (self.in_bounds() && self.clock.wf()),
    {
        let p1_ok = -COORD_LIMIT <= self.paddle_1.position.x && self.paddle_1.position.x
            <= COORD_LIMIT && -COORD_LIMIT <= self.paddle_1.position.y && self.paddle_1.position.y
            <= COORD_LIMIT && 0 <= self.paddle_1.speed && self.paddle_1.speed <= SPEED_LIMIT && 0
            <= self.paddle_1.width && self.paddle_1.width <= DIM_LIMIT && 0 <= self.paddle_1.height
            && self.paddle_1.height <= DIM_LIMIT;
        let p2_ok = -COORD_LIMIT <= self.paddle_2.position.x && self.paddle_2.position.x
            <= COORD_LIMIT && -COORD_LIMIT <= self.paddle_2.position.y && self.paddle_2.position.y
            <= COORD_LIMIT && 0 <= self.paddle_2.speed && self.paddle_2.speed <= SPEED_LIMIT && 0
            <= self.paddle_2.width && self.paddle_2.width <= DIM_LIMIT && 0 <= self.paddle_2.height
            && self.paddle_2.height <= DIM_LIMIT;
        let ball_ok = -COORD_LIMIT <= self.ball.position.x && self.ball.position.x <= COORD_LIMIT
            && -COORD_LIMIT <= self.ball.position.y && self.ball.position.y <= COORD_LIMIT
            && -VEL_LIMIT <= self.ball.velocity.x && self.ball.velocity.x <= VEL_LIMIT
            && -VEL_LIMIT <= self.ball.velocity.y && self.ball.velocity.y <= VEL_LIMIT && 0
            <= self.ball.width && self.ball.width <= DIM_LIMIT;
        let clock_ok = 0 <= self.clock.delta_ms && self.clock.delta_ms <= DELTA_TIME_CAP_MS;
        p1_ok && p2_ok && ball_ok && clock_ok
    }

    /// Advances the game by one frame with the given delta time: each held
    /// key moves its paddle, the ball is tested against each moved paddle's
    /// rectangle and its velocity fully inverted per hit, and the ball then
    /// integrates with the boundary policy. The clock is untouched.
    pub fn step(&mut self, input: &FrameInput, delta_ms: i64)
        requires
            0 <= delta_ms <= DELTA_TIME_CAP_MS,
            old(self).in_bounds(),
        ensures
            spec_step_rel(*old(self), *input, delta_ms as int, *final(self)),
            final(self).clock == old(self).clock,
    {
        proof {
            lemma_speed_product_bound(self.paddle_1.speed as int, delta_ms as int);
            lemma_speed_product_bound(self.paddle_2.speed as int, delta_ms as int);
            lemma_signed_product(self.paddle_1.speed as int, delta_ms as int);
            lemma_signed_product(self.paddle_2.speed as int, delta_ms as int);
        }
        if input.paddle_1_up {
            self.paddle_1.movement(-1, delta_ms);
        }
        if input.paddle_1_down {
            self.paddle_1.movement(1, delta_ms);
        }
        if input.paddle_2_up {
            self.paddle_2.movement(-1, delta_ms);
        }
        if input.paddle_2_down {
            self.paddle_2.movement(1, delta_ms);
        }
        proof {
            assert(self.paddle_1.position.y == spec_moved_y(
                old(self).paddle_1,
                input.paddle_1_up,
                input.paddle_1_down,
                delta_ms as int,
            ));
            assert(self.paddle_2.position.y == spec_moved_y(
                old(self).paddle_2,
                input.paddle_2_up,
                input.paddle_2_down,
                delta_ms as int,
            ));
        }
        let rect_1 = self.paddle_1.get_rect();
        let hit_1 = self.ball.check_collision(&rect_1);
        if hit_1 {
            self.ball.invert_velocity();
        }
        let rect_2 = self.paddle_2.get_rect();
        let hit_2 = self.ball.check_collision(&rect_2);
        if hit_2 {
            self.ball.invert_velocity();
        }
        proof {
            let o = *old(self);
            let dt = delta_ms as int;
            let s = spec_frame_bounce_sign(o, *input, dt);
            assert(s == (if hit_1 {
                -1int
            } else {
                1int
            }) * (if hit_2 {
                -1int
            } else {
                1int
            }));
            lemma_sign_mul(s, o.ball.velocity.x as int);
            lemma_sign_mul(s, o.ball.velocity.y as int);
            assert(self.ball.velocity.x == s * o.ball.velocity.x);
            assert(self.ball.velocity.y == s * o.ball.velocity.y);
            lemma_velocity_product_bound(self.ball.velocity.x as int, delta_ms as int);
            lemma_velocity_product_bound(self.ball.velocity.y as int, delta_ms as int);
        }
        self.ball.update_position(delta_ms);
    }

    /// Advances the game by one frame: measures the frame's delta time with
    /// the clock, then performs the frame step with it. Returns whether a
    /// fresh clock reading was taken; false means the time source reported a
    /// skew, the previous delta was kept, and the host should log the
    /// anomaly.
    pub fn update(&mut self, input: &FrameInput) -> (fresh: bool)
        requires
            old(self).in_bounds(),
            old(self).clock.wf(),
        ensures
            final(self).clock.wf(),
            spec_step_rel(
                *old(self),
                *input,
                final(self).clock.delta_ms as int,
                *final(self),
            ),
            !fresh ==> final(self).clock.delta_ms == old(self).clock.delta_ms,
    {
        let (dt, fresh) = self.clock.tick();
        self.step(input, dt);
        fresh
    }
}

/// For a nonnegative speed within `SPEED_LIMIT` and a delta time within
/// `DELTA_TIME_CAP_MS`, their product stays within `i64`.
proof fn lemma_speed_product_bound(s: int, d: int)
    requires
        0 <= s <= SPEED_LIMIT,
        0 <= d <= DELTA_TIME_CAP_MS,
    ensures
        0 <= s * d <= SPEED_LIMIT * DELTA_TIME_CAP_MS,
{
    assert(0 <= s * d <= SPEED_LIMIT * DELTA_TIME_CAP_MS) by (nonlinear_arith)
        requires
            0 <= s <= SPEED_LIMIT,
            0 <= d <= DELTA_TIME_CAP_MS,
    ;
}

/// For a velocity component within `VEL_LIMIT` and a delta time within
/// `DELTA_TIME_CAP_MS`, their product stays within `i64`.
proof fn lemma_velocity_product_bound(v: int, d: int)
    requires
        -VEL_LIMIT <= v <= VEL_LIMIT,
        0 <= d <= DELTA_TIME_CAP_MS,
    ensures
        -(VEL_LIMIT * DELTA_TIME_CAP_MS) <= v * d <= VEL_LIMIT * DELTA_TIME_CAP_MS,
{
    assert(-(VEL_LIMIT * DELTA_TIME_CAP_MS) <= v * d <= VEL_LIMIT * DELTA_TIME_CAP_MS)
        by (nonlinear_arith)
        requires
            -VEL_LIMIT <= v <= VEL_LIMIT,
            0 <= d <= DELTA_TIME_CAP_MS,
    ;
}

/// Multiplying by a sign of 1 keeps a value; by a sign of -1, negates it.
proof fn lemma_sign_mul(s: int, v: int)
    requires
        s == 1 || s == -1,
    ensures
        s == 1 ==> s * v == v,
        s == -1 ==> s * v == -v,
{
    assert(1 * v == v) by (nonlinear_arith);
    assert(-1 * v == -v) by (nonlinear_arith);
}

/// Multiplying a product's middle factor by -1, 0 or 1 negates, zeroes or
/// keeps it.
proof fn lemma_signed_product(s: int, d: int)
    ensures
        s * -1 * d == -(s * d),
        s * 0 * d == 0,
        s * 1 * d == s * d,
{
    assert(s * -1 * d == -(s * d)) by (nonlinear_arith);
    assert(s * 0 * d == 0) by (nonlinear_arith);
    assert(s * 1 * d == s * d) by (nonlinear_arith);
}

} // verus!
