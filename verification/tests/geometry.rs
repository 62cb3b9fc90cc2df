//! Collision geometry scenarios: intersection, side classification,
//! pushout tangency, mirroring, and positional idempotence.
//! All scalars are fixed-point: 1000 raw units per world unit.

use platformer_core::geom::{Aabb, Collision, collide};
use platformer_core::vec2::V2;
use platformer_core::body::{PlayerState, BlockData};
use platformer_core::resolve::handle_collisions;

fn aabb(cx: i64, cy: i64, hx: i64, hy: i64) -> Aabb {
    Aabb::new(V2::new(cx, cy), V2::new(hx, hy))
}

#[test]
fn collide_none_when_apart() {
    // Two unit boxes far apart on both axes.
    let a = aabb(0, 0, 1000, 1000);
    let b = aabb(10_000, 10_000, 1000, 1000);
    assert_eq!(collide(&a, &b), None);
    // Apart on one axis only.
    let c = aabb(0, 5000, 1000, 1000);
    assert_eq!(collide(&a, &c), None);
    // One raw unit of separation.
    let d = aabb(2001, 0, 1000, 1000);
    assert_eq!(collide(&a, &d), None);
}

#[test]
fn collide_touching_counts_as_contact() {
    // Exactly tangent boxes intersect (inclusive bounds) with a zero pushout
    // along the resolved axis: no resolution needed beyond zero offset.
    let mover = aabb(0, 2000, 1000, 1000);
    let floor = aabb(0, 0, 5000, 1000);
    match collide(&mover, &floor) {
        Some((side, clip)) => {
            assert_eq!(side, Collision::Bottom);
            assert_eq!(clip.y, 0);
        },
        None => panic!("touching boxes must report a contact"),
    }
}

#[test]
fn collide_bottom_pushout_makes_tangent() {
    // Player box (60 x 100) one unit into the top of a 400 x 50 floor
    // centered at (0, -300): Bottom contact, and the pushout moves the
    // center to exactly (0, -225).
    let player = aabb(0, -226_000, 30_000, 50_000);
    let floor = aabb(0, -300_000, 200_000, 25_000);
    match collide(&player, &floor) {
        Some((side, clip)) => {
            assert_eq!(side, Collision::Bottom);
            assert_eq!(clip.y, 1000);
            assert_eq!(player.center.y + clip.y, -225_000);
        },
        None => panic!("overlapping boxes must collide"),
    }
}

#[test]
fn collide_left_pushout_makes_tangent() {
    // Mover just right of a wall, overlapping by two raw units.
    let mover = aabb(5998, 0, 1000, 1000);
    let wall = aabb(0, 0, 5000, 5000);
    match collide(&mover, &wall) {
        Some((side, clip)) => {
            assert_eq!(side, Collision::Left);
            // Corrected center: mover's left edge meets the wall's right edge.
            let cx = mover.center.x + clip.x;
            assert_eq!(cx - 1000, 5000);
        },
        None => panic!("overlapping boxes must collide"),
    }
}

#[test]
fn collide_mirror_swaps_left_right() {
    let mover = aabb(5998, 0, 1000, 1000);
    let wall = aabb(0, 0, 5000, 5000);
    let (side, clip) = collide(&mover, &wall).unwrap();
    assert_eq!(side, Collision::Left);
    // Mirror both boxes' x coordinates: the contact becomes Right with the
    // same pushout along the resolved axis.
    let m_mover = aabb(-5998, 0, 1000, 1000);
    let m_wall = aabb(0, 0, 5000, 5000);
    let (m_side, m_clip) = collide(&m_mover, &m_wall).unwrap();
    assert_eq!(m_side, Collision::Right);
    assert_eq!(m_clip.x, clip.x);
}

#[test]
fn collide_mirror_keeps_vertical_sides() {
    let mover = aabb(400, -226_000, 30_000, 50_000);
    let floor = aabb(0, -300_000, 200_000, 25_000);
    let (side, clip) = collide(&mover, &floor).unwrap();
    assert_eq!(side, Collision::Bottom);
    let m_mover = aabb(-400, -226_000, 30_000, 50_000);
    let m_floor = aabb(0, -300_000, 200_000, 25_000);
    let (m_side, m_clip) = collide(&m_mover, &m_floor).unwrap();
    assert_eq!(m_side, Collision::Bottom);
    assert_eq!(m_clip.y, clip.y);
}

fn player_at(x: i64, y: i64) -> PlayerState {
    PlayerState {
        position: V2::new(x, y),
        velocity: V2::new(0, -500),
        shape: V2::new(60_000, 100_000),
        vis_shape: V2::new(60_000, 100_000),
        gravity: V2::new(0, -200),
        grounded: false,
        rotation: 0,
        z_order: 100,
    }
}

#[test]
fn resolution_twice_is_positional_noop() {
    // Resolve a one-unit penetration, then resolve again: the second pass
    // still reports the (now tangent) contact but moves nothing.
    let mut p = player_at(0, -226_000);
    p.grounded = true;  // keep the landing nudge out of the tangency check
    let blocks = vec![BlockData::new(V2::new(0, -300_000), V2::new(400_000, 50_000))];
    handle_collisions(&mut p, &blocks);
    assert_eq!(p.position.y, -225_000);
    assert_eq!(p.velocity.y, 0);
    let settled = p.position;
    handle_collisions(&mut p, &blocks);
    assert_eq!(p.position, settled);
    assert!(p.grounded);
}
