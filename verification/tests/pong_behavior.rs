use pong_core::ball::Ball;
use pong_core::clock::clamp_delta;
use pong_core::clock::Clock;
use pong_core::game::FrameInput;
use pong_core::game::GameState;
use pong_core::geometry::Circle;
use pong_core::geometry::Rect;
use pong_core::geometry::Vector2;
use pong_core::paddle::Paddle;

fn no_keys() -> FrameInput {
    FrameInput { paddle_1_up: false, paddle_1_down: false, paddle_2_up: false, paddle_2_down: false }
}

fn test_paddle(x: i64, y: i64) -> Paddle {
    Paddle { position: Vector2 { x, y }, speed: 200, width: 25_000, height: 100_000 }
}

fn test_ball(x: i64, y: i64, vx: i64, vy: i64) -> Ball {
    Ball { position: Vector2 { x, y }, velocity: Vector2 { x: vx, y: vy }, width: 25_000 }
}

// Paddle at (50, 360) units, speed 200 units/s, axis +1 (down), delta 0.1 s:
// the resulting y is exactly 380 units.
#[test]
fn paddle_moves_down_exactly() {
    let mut p = test_paddle(50_000, 360_000);
    p.movement(1, 100);
    assert_eq!(p.position.y, 380_000);
    assert_eq!(p.position.x, 50_000);
    assert_eq!(p.speed, 200);
}

#[test]
fn paddle_moves_up_exactly() {
    let mut p = test_paddle(50_000, 360_000);
    p.movement(-1, 100);
    assert_eq!(p.position.y, 340_000);
}

#[test]
fn paddle_axis_zero_keeps_position() {
    let mut p = test_paddle(50_000, 360_000);
    p.movement(0, 100_000);
    assert_eq!(p.position.y, 360_000);
}

#[test]
fn paddle_zero_delta_keeps_position() {
    let mut p = test_paddle(50_000, 123_456);
    p.movement(1, 0);
    assert_eq!(p.position.y, 123_456);
}

// Movement is not clamped: a paddle may leave the field.
#[test]
fn paddle_moves_off_screen() {
    let mut p = test_paddle(50_000, 700_000);
    p.movement(1, 1_000);
    assert_eq!(p.position.y, 900_000);
}

#[test]
fn paddle_rect_halves_sprite_size() {
    let p = test_paddle(50_000, 360_000);
    let r = p.get_rect();
    assert_eq!(r.position.x, 50_000);
    assert_eq!(r.position.y, 360_000);
    assert_eq!(r.dimensions.x, 12_500);
    assert_eq!(r.dimensions.y, 50_000);
}

// The ball's collision radius is the full sprite width, not a half-width.
#[test]
fn ball_circle_uses_full_width_as_radius() {
    let b = test_ball(640_000, 360_000, 200, 0);
    let c = b.get_circle();
    assert_eq!(c.position.x, 640_000);
    assert_eq!(c.position.y, 360_000);
    assert_eq!(c.radius, 25_000);
}

// Ball at (640, 360) units with velocity (200, 0) units/s over 0.1 s moves
// to exactly (660, 360).
#[test]
fn ball_integrates_linearly() {
    let mut b = test_ball(640_000, 360_000, 200, 0);
    b.update_position(100);
    assert_eq!(b.position.x, 660_000);
    assert_eq!(b.position.y, 360_000);
    assert_eq!(b.velocity.x, 200);
    assert_eq!(b.velocity.y, 0);
}

// With zero velocity the position is unchanged whatever the delta time.
#[test]
fn ball_zero_velocity_is_stationary() {
    let mut b = test_ball(100_000, 650_000, 0, 0);
    b.update_position(3_600_000);
    assert_eq!(b.position.x, 100_000);
    assert_eq!(b.position.y, 650_000);
}

// Ball integrated to x = -5 units leaves the horizontal range: the position
// resets to the exact field center and the velocity is untouched.
#[test]
fn ball_horizontal_exit_resets_to_center() {
    let mut b = test_ball(-5_000, 360_000, 0, 0);
    b.update_position(7);
    assert_eq!(b.position.x, 640_000);
    assert_eq!(b.position.y, 360_000);
    assert_eq!(b.velocity.x, 0);
    assert_eq!(b.velocity.y, 0);
}

#[test]
fn ball_right_exit_resets_to_center() {
    let mut b = test_ball(1_275_000, 100_000, 200, 40);
    b.update_position(100);
    assert_eq!(b.position.x, 640_000);
    assert_eq!(b.position.y, 360_000);
    assert_eq!(b.velocity.x, 200);
    assert_eq!(b.velocity.y, 40);
}

// Ball at y = -5 units inside the horizontal range: the vertical velocity
// flips sign once and the position stays as integration computed it.
#[test]
fn ball_vertical_exit_bounces() {
    let mut b = test_ball(0, -5_000, 10, 30);
    b.update_position(0);
    assert_eq!(b.position.x, 0);
    assert_eq!(b.position.y, -5_000);
    assert_eq!(b.velocity.x, 10);
    assert_eq!(b.velocity.y, -30);
}

#[test]
fn ball_bottom_exit_bounces() {
    let mut b = test_ball(640_000, 719_000, 0, 50);
    b.update_position(100);
    assert_eq!(b.position.y, 724_000);
    assert_eq!(b.velocity.y, -50);
    assert_eq!(b.velocity.x, 0);
}

// A step that leaves both ranges at once fires both boundary reactions in
// the same call: the position resets to the field center and the vertical
// velocity flips sign.
#[test]
fn ball_combined_exit_resets_and_bounces() {
    let mut b = test_ball(1_275_000, 715_000, 200, 100);
    b.update_position(100);
    assert_eq!(b.position.x, 640_000);
    assert_eq!(b.position.y, 360_000);
    assert_eq!(b.velocity.x, 200);
    assert_eq!(b.velocity.y, -100);
}

#[test]
fn ball_combined_exit_left_and_top() {
    let mut b = test_ball(-5_000, -5_000, 0, 10);
    b.update_position(0);
    assert_eq!(b.position.x, 640_000);
    assert_eq!(b.position.y, 360_000);
    assert_eq!(b.velocity.x, 0);
    assert_eq!(b.velocity.y, -10);
}

#[test]
fn ball_inverts_both_velocity_components() {
    let mut b = test_ball(640_000, 360_000, 200, -70);
    b.invert_velocity();
    assert_eq!(b.velocity.x, -200);
    assert_eq!(b.velocity.y, 70);
    assert_eq!(b.position.x, 640_000);
    assert_eq!(b.position.y, 360_000);
}

// A circle whose center projects into the rectangle's slab collides.
#[test]
fn collision_center_inside_slab() {
    let b = Ball {
        position: Vector2 { x: 50, y: 149 },
        velocity: Vector2 { x: 0, y: 0 },
        width: 50,
    };
    let r = Rect {
        position: Vector2 { x: 0, y: 0 },
        dimensions: Vector2 { x: 200, y: 200 },
    };
    assert!(b.check_collision(&r));
}

// A circle farther than half-extent plus radius along one axis misses.
#[test]
fn collision_separated_on_axis() {
    let b = Ball {
        position: Vector2 { x: 151, y: 0 },
        velocity: Vector2 { x: 0, y: 0 },
        width: 50,
    };
    let r = Rect {
        position: Vector2 { x: 0, y: 0 },
        dimensions: Vector2 { x: 200, y: 200 },
    };
    assert!(!b.check_collision(&r));
}

// Corner test: squared corner distance exactly equal to the squared radius
// still collides; one more milliunit misses.
#[test]
fn collision_corner_boundary() {
    let rect = Rect {
        position: Vector2 { x: 0, y: 0 },
        dimensions: Vector2 { x: 200, y: 200 },
    };
    let on_boundary = Ball {
        position: Vector2 { x: 130, y: 140 },
        velocity: Vector2 { x: 0, y: 0 },
        width: 50,
    };
    assert!(on_boundary.check_collision(&rect));
    let outside = Ball {
        position: Vector2 { x: 130, y: 141 },
        velocity: Vector2 { x: 0, y: 0 },
        width: 50,
    };
    assert!(!outside.check_collision(&rect));
}

#[test]
fn collision_near_corner_hits() {
    let rect = Rect {
        position: Vector2 { x: 0, y: 0 },
        dimensions: Vector2 { x: 200, y: 200 },
    };
    let b = Ball {
        position: Vector2 { x: 103, y: 104 },
        velocity: Vector2 { x: 0, y: 0 },
        width: 50,
    };
    assert!(b.check_collision(&rect));
}

#[test]
fn vector_plus_and_scaled() {
    let a = Vector2::new(3, -4);
    let b = Vector2::new(10, 20);
    let sum = a.plus(b);
    assert_eq!(sum.x, 13);
    assert_eq!(sum.y, 16);
    let doubled = a.scaled(2);
    assert_eq!(doubled.x, 6);
    assert_eq!(doubled.y, -8);
    let negated = a.scaled(-1);
    assert_eq!(negated.x, -3);
    assert_eq!(negated.y, 4);
}

#[test]
fn circle_fields_carry_through() {
    let c = Circle { position: Vector2 { x: 1, y: 2 }, radius: 3 };
    assert_eq!(c.position.x, 1);
    assert_eq!(c.position.y, 2);
    assert_eq!(c.radius, 3);
}

#[test]
fn clamp_delta_passes_small_readings() {
    assert_eq!(clamp_delta(0), 0);
    assert_eq!(clamp_delta(160), 160);
    assert_eq!(clamp_delta(3_600_000), 3_600_000);
}

#[test]
fn clamp_delta_caps_large_readings() {
    assert_eq!(clamp_delta(3_600_001), 3_600_000);
    assert_eq!(clamp_delta(u128::MAX), 3_600_000);
}

#[test]
fn clock_starts_with_first_frame_delta() {
    let c = Clock::new();
    assert_eq!(c.delta_ms, 160);
}

#[test]
fn clock_tick_stays_in_range() {
    let mut c = Clock::new();
    let (dt, fresh) = c.tick();
    assert!(0 <= dt && dt <= 3_600_000);
    assert_eq!(dt, c.delta_ms);
    // A skewed reading keeps the first-frame delta.
    if !fresh {
        assert_eq!(dt, 160);
    }
}

#[test]
fn new_state_has_documented_layout() {
    let gs = GameState::new_with_entropy(25, 100, 25, 500);
    assert_eq!(gs.paddle_1.position.x, 50_000);
    assert_eq!(gs.paddle_1.position.y, 360_000);
    assert_eq!(gs.paddle_2.position.x, 1_230_000);
    assert_eq!(gs.paddle_2.position.y, 360_000);
    assert_eq!(gs.paddle_1.speed, 200);
    assert_eq!(gs.paddle_2.speed, 200);
    assert_eq!(gs.paddle_1.width, 25_000);
    assert_eq!(gs.paddle_1.height, 100_000);
    assert_eq!(gs.ball.position.x, 640_000);
    assert_eq!(gs.ball.position.y, 360_000);
    assert_eq!(gs.ball.velocity.x, 200);
    assert_eq!(gs.ball.width, 25_000);
    assert_eq!(gs.delta_time(), 160);
}

// The entropy value is recentered, clamped to half strength, and applied
// per mille to the starting speed, rounding toward zero.
#[test]
fn start_velocity_from_entropy_exact() {
    assert_eq!(GameState::new_with_entropy(25, 100, 25, 500).ball.velocity.y, 0);
    assert_eq!(GameState::new_with_entropy(25, 100, 25, 1000).ball.velocity.y, 100);
    assert_eq!(GameState::new_with_entropy(25, 100, 25, 0).ball.velocity.y, -100);
    assert_eq!(GameState::new_with_entropy(25, 100, 25, 999).ball.velocity.y, 100);
    assert_eq!(GameState::new_with_entropy(25, 100, 25, 700).ball.velocity.y, 80);
    assert_eq!(GameState::new_with_entropy(25, 100, 25, 300).ball.velocity.y, -80);
    assert_eq!(GameState::new_with_entropy(25, 100, 25, 251).ball.velocity.y, -99);
}

#[test]
fn new_draws_bounded_start_velocity() {
    let gs = GameState::new(25, 100, 25);
    assert_eq!(gs.ball.velocity.x, 200);
    assert!(-100 <= gs.ball.velocity.y && gs.ball.velocity.y <= 100);
    assert!(gs.ready_for_update());
}

#[test]
fn step_moves_paddles_by_held_keys() {
    let mut gs = GameState::new_with_entropy(25, 100, 25, 500);
    let input = FrameInput {
        paddle_1_down: true,
        paddle_1_up: false,
        paddle_2_up: true,
        paddle_2_down: false,
    };
    gs.step(&input, 100);
    assert_eq!(gs.paddle_1.position.y, 380_000);
    assert_eq!(gs.paddle_2.position.y, 340_000);
}

// Holding both keys of one paddle nets to zero movement.
#[test]
fn step_opposed_keys_cancel() {
    let mut gs = GameState::new_with_entropy(25, 100, 25, 500);
    let input = FrameInput {
        paddle_1_up: true,
        paddle_1_down: true,
        paddle_2_up: false,
        paddle_2_down: false,
    };
    gs.step(&input, 100);
    assert_eq!(gs.paddle_1.position.y, 360_000);
    assert_eq!(gs.paddle_2.position.y, 360_000);
}

// A hit on one paddle inverts both velocity components before integration.
#[test]
fn step_single_collision_inverts_velocity() {
    let mut gs = GameState::new_with_entropy(25, 100, 25, 700);
    // Park the ball on the left paddle's center: it overlaps paddle 1 only.
    gs.ball.position = Vector2 { x: 50_000, y: 360_000 };
    let before_vx = gs.ball.velocity.x;
    let before_vy = gs.ball.velocity.y;
    gs.step(&no_keys(), 0);
    assert_eq!(gs.ball.velocity.x, -before_vx);
    assert_eq!(gs.ball.velocity.y, -before_vy);
}

// Two simultaneous paddle collisions in one frame: the inversion is applied
// twice and the net velocity direction is unchanged.
#[test]
fn step_double_collision_cancels() {
    let mut gs = GameState::new_with_entropy(25, 100, 25, 500);
    // A huge ball parked at the center overlaps both paddles at once.
    gs.ball.width = 600_000;
    gs.step(&no_keys(), 100);
    assert_eq!(gs.ball.velocity.x, 200);
    assert_eq!(gs.ball.velocity.y, 0);
    assert_eq!(gs.ball.position.x, 660_000);
    assert_eq!(gs.ball.position.y, 360_000);
}

// The same double collision through the clocked update: whatever delta the
// clock measures, the velocity direction is unchanged.
#[test]
fn update_double_collision_keeps_direction() {
    let mut gs = GameState::new_with_entropy(25, 100, 25, 500);
    gs.ball.width = 600_000;
    assert!(gs.ready_for_update());
    let _fresh = gs.update(&no_keys());
    assert_eq!(gs.ball.velocity.x, 200);
    assert_eq!(gs.ball.velocity.y, 0);
}

#[test]
fn update_without_keys_keeps_paddles() {
    let mut gs = GameState::new(25, 100, 25);
    let vx = gs.ball.velocity.x;
    let fresh = gs.update(&no_keys());
    // A skewed first reading keeps the documented first-frame delta.
    if !fresh {
        assert_eq!(gs.delta_time(), 160);
    }
    assert_eq!(gs.paddle_1.position.y, 360_000);
    assert_eq!(gs.paddle_2.position.y, 360_000);
    assert_eq!(gs.ball.velocity.x, vx);
    assert!(0 <= gs.delta_time() && gs.delta_time() <= 3_600_000);
}

#[test]
fn ready_for_update_rejects_broken_state() {
    let mut gs = GameState::new_with_entropy(25, 100, 25, 500);
    assert!(gs.ready_for_update());
    gs.paddle_1.speed = -1;
    assert!(!gs.ready_for_update());
}
