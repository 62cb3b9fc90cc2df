//! Whole-pipeline scenarios: free fall, input-driven acceleration,
//! determinism, grounded tracking, camera pursuit, and visual feedback.
//! All scalars are fixed-point: 1000 raw units per world unit.

use platformer_core::vec2::V2;
use platformer_core::body::{PlayerState, CameraState, BlockData, Input, gravitate, control_player};
use platformer_core::camera::camera_follow;
use platformer_core::effects::player_effects;
use platformer_core::resolve::handle_collisions;
use platformer_core::world::{World, tick, init_world, spawn_player, spawn_camera};

fn no_input() -> Input {
    Input { move_left_held: false, move_right_held: false, jump_pressed: false }
}

fn hold_right() -> Input {
    Input { move_left_held: false, move_right_held: true, jump_pressed: false }
}

fn resting_player(x: i64, y: i64) -> PlayerState {
    PlayerState {
        position: V2::new(x, y),
        velocity: V2::new(0, 0),
        shape: V2::new(60_000, 100_000),
        vis_shape: V2::new(60_000, 100_000),
        gravity: V2::new(0, -200),
        grounded: false,
        rotation: 0,
        z_order: 100,
    }
}

#[test]
fn free_fall_accumulates_gravity() {
    // Player at (0, 1000) with zero velocity, gravity (0, -0.2), nothing
    // beneath within reach: after 50 ticks the vertical velocity is -10.0
    // and the position decreased every tick.
    let mut w = World {
        player: resting_player(0, 1_000_000),
        camera: spawn_camera(),
        blocks: Vec::new(),
    };
    let mut prev_y = w.player.position.y;
    for _ in 0..50 {
        tick(&mut w, no_input());
        assert!(w.player.position.y < prev_y);
        prev_y = w.player.position.y;
    }
    assert_eq!(w.player.velocity.y, -10_000);
}

#[test]
fn hold_right_approaches_speed_cap() {
    // From rest, holding move-right blends the horizontal velocity toward
    // the cap by v' = v + 0.05 * (5 - v) each tick, monotonically and
    // without overshoot.
    let mut w = World {
        player: PlayerState { gravity: V2::new(0, 0), ..resting_player(0, 0) },
        camera: spawn_camera(),
        blocks: Vec::new(),
    };
    let mut expected: i64 = 0;
    for _ in 0..20 {
        let prev = w.player.velocity.x;
        tick(&mut w, hold_right());
        expected = expected + (50 * (5000 - expected)).div_euclid(1000);
        assert_eq!(w.player.velocity.x, expected);
        assert!(w.player.velocity.x >= prev);
        assert!(w.player.velocity.x <= 5000);
    }
    // First blend step: 0.05 * 5 = 0.25.
    let mut p = PlayerState { gravity: V2::new(0, 0), ..resting_player(0, 0) };
    control_player(&mut p, hold_right());
    assert_eq!(p.velocity.x, 250);
}

#[test]
fn opposing_holds_cancel() {
    let mut p = resting_player(0, 0);
    p.velocity = V2::new(3000, 0);
    let both = Input { move_left_held: true, move_right_held: true, jump_pressed: false };
    // Target speed is zero, |0| < |3|: the faster deceleration factor 0.08.
    control_player(&mut p, both);
    assert_eq!(p.velocity.x, 3000 + (80 * (0 - 3000)) / 1000);
}

#[test]
fn jump_overwrites_vertical_velocity() {
    // A jump edge sets the vertical velocity outright (even mid-air, even
    // against existing motion) and squashes the visual footprint.
    let mut p = resting_player(0, 0);
    p.velocity = V2::new(0, -4000);
    let jump = Input { move_left_held: false, move_right_held: false, jump_pressed: true };
    control_player(&mut p, jump);
    assert_eq!(p.velocity.y, 8000);
    assert_eq!(p.vis_shape, V2::new(80_000, 70_000));
}

#[test]
fn gravity_accumulates_into_velocity() {
    let mut p = resting_player(0, 0);
    gravitate(&mut p);
    assert_eq!(p.velocity, V2::new(0, -200));
    gravitate(&mut p);
    assert_eq!(p.velocity, V2::new(0, -400));
}

#[test]
fn identical_runs_give_identical_trajectories() {
    // Same initial state, same input sequence: bit-identical positions,
    // tick for tick.
    let build = || World {
        player: spawn_player(),
        camera: spawn_camera(),
        blocks: init_world(),
    };
    let mut w1 = build();
    let mut w2 = build();
    for i in 0..200 {
        let input = Input {
            move_left_held: i % 7 == 0,
            move_right_held: i % 3 == 0,
            jump_pressed: i % 50 == 10,
        };
        tick(&mut w1, input);
        tick(&mut w2, input);
        assert_eq!(w1.player.position, w2.player.position);
        assert_eq!(w1.player.velocity, w2.player.velocity);
        assert_eq!(w1.camera.position, w2.camera.position);
        assert_eq!(w1.camera.velocity, w2.camera.velocity);
        assert_eq!(w1.player.rotation, w2.player.rotation);
    }
}

#[test]
fn grounded_tracks_bottom_contacts() {
    // Grounded is true exactly when the pass had a Bottom contact, and
    // flips back the first pass without one.
    let floor = vec![BlockData::new(V2::new(0, -300_000), V2::new(400_000, 50_000))];
    let mut p = resting_player(0, -226_000);
    handle_collisions(&mut p, &floor);
    assert!(p.grounded);
    // Move the player far above the floor: next pass has no contact.
    p.position = V2::new(0, 0);
    handle_collisions(&mut p, &floor);
    assert!(!p.grounded);
}

#[test]
fn landing_squash_fires_once() {
    // The airborne-to-grounded edge snaps the visual footprint to the
    // landing squash and nudges the player down by 10 units — once; while
    // grounded it does not re-fire.
    let floor = vec![BlockData::new(V2::new(0, -300_000), V2::new(400_000, 50_000))];
    let mut p = resting_player(0, -226_000);
    handle_collisions(&mut p, &floor);
    assert!(p.grounded);
    assert_eq!(p.vis_shape, V2::new(80_000, 80_000));
    assert_eq!(p.position.y, -235_000);  // tangent at -225, nudged down 10
    p.vis_shape = V2::new(60_000, 100_000);
    handle_collisions(&mut p, &floor);
    // Still grounded, but no new squash and no new nudge.
    assert!(p.grounded);
    assert_eq!(p.vis_shape, V2::new(60_000, 100_000));
}

#[test]
fn camera_blends_toward_damped_offset() {
    // Camera at rest at the origin, player at (100, 0), damping 0.04,
    // blend 0.1: one update sets the camera velocity to (0.4, 0).
    let mut c = spawn_camera();
    camera_follow(&mut c, V2::new(100_000, 0));
    assert_eq!(c.velocity, V2::new(400, 0));
    assert_eq!(c.position, V2::new(0, 0));
}

#[test]
fn camera_halts_when_close() {
    let mut c = CameraState {
        position: V2::new(0, 0),
        velocity: V2::new(900, -900),
        rotation: 0,
        z_order: 0,
    };
    // 0.06 units away: within the 0.1 stop distance, so the velocity is
    // forced to zero.
    camera_follow(&mut c, V2::new(60, 0));
    assert_eq!(c.velocity, V2::new(0, 0));
}

#[test]
fn squash_recovers_toward_logical_shape() {
    let mut p = resting_player(0, 0);
    p.vis_shape = V2::new(80_000, 80_000);
    player_effects(&mut p);
    // One step of the 0.05 blend from (80, 80) toward (60, 100).
    assert_eq!(p.vis_shape, V2::new(79_000, 81_000));
    assert_eq!(p.rotation, 0);
}

#[test]
fn lean_scales_with_speed_ratio() {
    let mut p = resting_player(0, 0);
    p.velocity = V2::new(5000, 0);
    player_effects(&mut p);
    assert_eq!(p.rotation, -300);  // full speed: the whole -0.3 lean
    let mut q = resting_player(0, 0);
    q.velocity = V2::new(2500, 0);
    player_effects(&mut q);
    assert_eq!(q.rotation, -150);
}

#[test]
fn spawned_world_settles_on_floor() {
    // From the spawn layout the player falls onto the floor, lands exactly
    // tangent (after the one-shot nudge recovers), and stays grounded.
    let mut w = World {
        player: spawn_player(),
        camera: spawn_camera(),
        blocks: init_world(),
    };
    for _ in 0..2000 {
        tick(&mut w, no_input());
    }
    assert!(w.player.grounded);
    assert_eq!(w.player.velocity.y, 0);
    // Floor top at -275; the settled center sits one half-footprint above,
    // within the slowly recovering squash height.
    assert!(w.player.position.y > -240_000 && w.player.position.y < -220_000);
}
