//! End-to-end checks of the integrator, the impulse handlers and the
//! animation stepper on concrete values.

use cube_baby::animation::update_sprite_rotation;
use cube_baby::components::{Distance, Position, PushDelay, Velocity};
use cube_baby::input::{drag_impulse, fixed_update_mouse_collision, fixed_update_spacebar_knocking, knock_impulse};
use cube_baby::loading::on_application_load_finished;
use cube_baby::physics::update_window_movement;
use cube_baby::resources::DisplayProperties;
use cube_baby::vec2::{PixelExtent, PixelPoint, Vec2Fx};

fn test_display() -> DisplayProperties {
    DisplayProperties {
        position: PixelPoint { x: 0, y: 0 },
        resolution: PixelExtent { x: 1920, y: 1080 },
    }
}

#[test]
fn spawn_at_display_center() {
    let spawn = on_application_load_finished(&test_display());
    // Center (960, 540) minus half the 64-pixel window.
    assert_eq!(spawn.position.0, Vec2Fx { x: 928000, y: 508000 });
    assert_eq!(spawn.velocity.0, Vec2Fx { x: 0, y: 0 });
    assert_eq!(spawn.push_delay.0, 0);
    assert_eq!(spawn.distance.0, 0);
    assert_eq!(spawn.window_position, PixelPoint { x: 928, y: 508 });
}

#[test]
fn integrator_moves_by_velocity_times_dt() {
    let display = test_display();
    let mut position = Position::new(928000, 508000);
    let mut velocity = Velocity::new(500000, 0);
    let mut distance = Distance(0);
    // One full second: 500 pixels to the right, drag halves the velocity.
    let window = update_window_movement(&mut position, &mut velocity, &mut distance, &display, 1000);
    assert_eq!(position.0, Vec2Fx { x: 1428000, y: 508000 });
    assert_eq!(velocity.0, Vec2Fx { x: 250000, y: 0 });
    assert_eq!(distance.0, 500000);
    assert_eq!(window, PixelPoint { x: 1428, y: 508 });
}

#[test]
fn integrator_clamps_and_reflects_at_high_edge() {
    let display = test_display();
    // The window's right side would pass 1920: clamp to 1856 and point
    // the velocity back toward the display.
    let mut position = Position::new(1900000, 508000);
    let mut velocity = Velocity::new(500000, 0);
    let mut distance = Distance(0);
    let window = update_window_movement(&mut position, &mut velocity, &mut distance, &display, 0);
    assert_eq!(position.0, Vec2Fx { x: 1856000, y: 508000 });
    assert_eq!(velocity.0, Vec2Fx { x: -500000, y: 0 });
    assert_eq!(distance.0, 0);
    assert_eq!(window, PixelPoint { x: 1856, y: 508 });
}

#[test]
fn integrator_clamps_and_reflects_at_low_edge() {
    let display = test_display();
    let mut position = Position::new(-5000, 508000);
    let mut velocity = Velocity::new(-200000, 0);
    let mut distance = Distance(0);
    update_window_movement(&mut position, &mut velocity, &mut distance, &display, 0);
    assert_eq!(position.0, Vec2Fx { x: 0, y: 508000 });
    assert_eq!(velocity.0, Vec2Fx { x: 200000, y: 0 });
}

#[test]
fn integrator_reflects_low_y_edge() {
    let display = test_display();
    let mut position = Position::new(500000, -1000);
    let mut velocity = Velocity::new(0, -300000);
    let mut distance = Distance(0);
    update_window_movement(&mut position, &mut velocity, &mut distance, &display, 0);
    assert_eq!(position.0, Vec2Fx { x: 500000, y: 0 });
    assert_eq!(velocity.0, Vec2Fx { x: 0, y: 300000 });
}

#[test]
fn zero_dt_changes_nothing_in_bounds() {
    let display = test_display();
    let mut position = Position::new(500000, 600000);
    let mut velocity = Velocity::new(123456, -654321);
    let mut distance = Distance(777);
    let window = update_window_movement(&mut position, &mut velocity, &mut distance, &display, 0);
    assert_eq!(position.0, Vec2Fx { x: 500000, y: 600000 });
    assert_eq!(velocity.0, Vec2Fx { x: 123456, y: -654321 });
    assert_eq!(distance.0, 777);
    assert_eq!(window, PixelPoint { x: 500, y: 600 });
}

#[test]
fn diagonal_motion_accumulates_euclidean_distance() {
    let display = test_display();
    let mut position = Position::new(500000, 500000);
    let mut velocity = Velocity::new(3000, 4000);
    let mut distance = Distance(0);
    // A 3-4-5 triangle: the slid distance is exactly 5 units.
    update_window_movement(&mut position, &mut velocity, &mut distance, &display, 1000);
    assert_eq!(position.0, Vec2Fx { x: 503000, y: 504000 });
    assert_eq!(distance.0, 5000);
}

#[test]
fn cooldown_counts_down_without_consuming_events() {
    let mut velocity = Velocity::new(5, 6);
    let mut push_delay = PushDelay(300);
    let events: Vec<Vec2Fx> = vec![
        Vec2Fx { x: 100000, y: 100000 },
        Vec2Fx { x: 110000, y: 100000 },
    ];
    fixed_update_mouse_collision(&mut velocity, &mut push_delay, &events, 100);
    assert_eq!(push_delay.0, 200);
    assert_eq!(velocity.0, Vec2Fx { x: 5, y: 6 });
}

#[test]
fn cooldown_never_goes_negative() {
    let mut velocity = Velocity::new(0, 0);
    let mut push_delay = PushDelay(50);
    let events: Vec<Vec2Fx> = Vec::new();
    fixed_update_mouse_collision(&mut velocity, &mut push_delay, &events, 100);
    assert_eq!(push_delay.0, 0);
}

#[test]
fn short_drag_renormalizes_to_minimum_push() {
    let mut velocity = Velocity::new(0, 0);
    let mut push_delay = PushDelay(0);
    // Half a pixel to the right: far below the minimum push, so the
    // impulse is raised to exactly the minimum magnitude, direction kept.
    let events: Vec<Vec2Fx> = vec![
        Vec2Fx { x: 100000, y: 100000 },
        Vec2Fx { x: 100500, y: 100000 },
    ];
    fixed_update_mouse_collision(&mut velocity, &mut push_delay, &events, 100);
    assert_eq!(velocity.0, Vec2Fx { x: 32000, y: 0 });
    assert_eq!(push_delay.0, 250);
}

#[test]
fn long_drag_scales_linearly() {
    let mut velocity = Velocity::new(0, 0);
    let mut push_delay = PushDelay(0);
    // 3 pixels right, 4 pixels down: scaled by 32, magnitude 160 pixels
    // per second, well above the minimum push.
    let events: Vec<Vec2Fx> = vec![
        Vec2Fx { x: 0, y: 0 },
        Vec2Fx { x: 1000, y: 2000 },
        Vec2Fx { x: 3000, y: 4000 },
    ];
    fixed_update_mouse_collision(&mut velocity, &mut push_delay, &events, 100);
    assert_eq!(velocity.0, Vec2Fx { x: 96000, y: 128000 });
    assert_eq!(push_delay.0, 250);
}

#[test]
fn single_event_is_ignored() {
    let mut velocity = Velocity::new(7, 8);
    let mut push_delay = PushDelay(0);
    let events: Vec<Vec2Fx> = vec![Vec2Fx { x: 100000, y: 100000 }];
    fixed_update_mouse_collision(&mut velocity, &mut push_delay, &events, 100);
    assert_eq!(velocity.0, Vec2Fx { x: 7, y: 8 });
    assert_eq!(push_delay.0, 0);
}

#[test]
fn stationary_drag_gives_no_impulse_but_restarts_cooldown() {
    let mut velocity = Velocity::new(7, 8);
    let mut push_delay = PushDelay(0);
    let events: Vec<Vec2Fx> = vec![
        Vec2Fx { x: 100000, y: 100000 },
        Vec2Fx { x: 100000, y: 100000 },
    ];
    fixed_update_mouse_collision(&mut velocity, &mut push_delay, &events, 100);
    assert_eq!(velocity.0, Vec2Fx { x: 7, y: 8 });
    assert_eq!(push_delay.0, 250);
}

#[test]
fn drag_impulse_magnitude_never_below_minimum() {
    // A sweep of small drags: every non-degenerate impulse has magnitude
    // at least 32 pixels per second (squared: 1_024_000_000).
    for dx in [-900i64, -500, -31, 32, 400, 900] {
        for dy in [-700i64, -100, 0, 250, 800] {
            let r = drag_impulse(Vec2Fx { x: dx, y: dy });
            let scaled_x = dx * 32; // fx_mul(dx, 32000)
            let scaled_y = dy * 32;
            if scaled_x != 0 || scaled_y != 0 {
                let mag_sq = r.x * r.x + r.y * r.y;
                assert!(mag_sq >= 32000 * 32000, "dx={dx} dy={dy} mag_sq={mag_sq}");
            }
        }
    }
}

#[test]
fn knock_impulse_axis_aligned_is_exact() {
    let r = knock_impulse(1000, 0, 32000);
    assert_eq!(r, Vec2Fx { x: 64000, y: 0 });
    let r = knock_impulse(0, -1000, 16000);
    assert_eq!(r, Vec2Fx { x: 0, y: -32000 });
}

#[test]
fn knock_impulse_pythagorean_direction_is_exact() {
    // Direction (0.6, 0.8) has unit length, so the impulse magnitude is
    // exactly the scaled strength.
    let r = knock_impulse(600, 800, 16000);
    assert_eq!(r, Vec2Fx { x: 19200, y: 25600 });
    assert_eq!(r.x * r.x + r.y * r.y, 32000i64 * 32000);
}

#[test]
fn knock_impulse_zero_direction_is_zero() {
    let r = knock_impulse(0, 0, 32000);
    assert_eq!(r, Vec2Fx { x: 0, y: 0 });
}

#[test]
fn knock_impulse_zero_only_when_degenerate() {
    // Zero strength gives no impulse.
    assert_eq!(knock_impulse(700, -300, 0), Vec2Fx { x: 0, y: 0 });
    // Even the smallest strength on a lopsided direction still pushes.
    assert_eq!(knock_impulse(1, 1000, 1), Vec2Fx { x: 0, y: 1 });
}

#[test]
fn knock_impulse_magnitude_never_exceeds_scaled_strength() {
    for dx in [-1000i64, -333, -1, 0, 250, 1000] {
        for dy in [-1000i64, -47, 0, 612, 1000] {
            for s in [0i64, 1, 15000, 32000] {
                let r = knock_impulse(dx, dy, s);
                let t = s * 2; // fx_mul(s, 2000)
                assert!(r.x * r.x + r.y * r.y <= t * t, "dx={dx} dy={dy} s={s}");
            }
        }
    }
}

#[test]
fn spacebar_knock_is_bounded_and_gated() {
    let mut velocity = Velocity::new(10, -10);
    fixed_update_spacebar_knocking(&mut velocity, false);
    assert_eq!(velocity.0, Vec2Fx { x: 10, y: -10 });

    let mut velocity = Velocity::new(0, 0);
    fixed_update_spacebar_knocking(&mut velocity, true);
    // Whatever the randomness chose, the impulse magnitude stays within
    // twice the push strength times the sprite scale (64 pixels/second).
    assert!(velocity.0.x * velocity.0.x + velocity.0.y * velocity.0.y <= 64000i64 * 64000);
}

#[test]
fn sprite_rotation_preserves_overshoot() {
    // Seeded with three full thresholds plus 123: three updates end at
    // exactly 123 with the frame index advanced by three.
    let mut index: u32 = 2;
    let mut distance = Distance(3 * 20000 + 123);
    update_sprite_rotation(&mut index, &mut distance);
    assert_eq!((index, distance.0), (3, 40123));
    update_sprite_rotation(&mut index, &mut distance);
    assert_eq!((index, distance.0), (4, 20123));
    update_sprite_rotation(&mut index, &mut distance);
    assert_eq!((index, distance.0), (5, 123));
    // A fourth call is below the threshold and changes nothing.
    update_sprite_rotation(&mut index, &mut distance);
    assert_eq!((index, distance.0), (5, 123));
}

#[test]
fn sprite_rotation_wraps_around() {
    let mut index: u32 = 7;
    let mut distance = Distance(20123);
    update_sprite_rotation(&mut index, &mut distance);
    assert_eq!((index, distance.0), (0, 123));
}
