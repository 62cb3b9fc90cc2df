//! Entity records of the simulation and the kinematic integrator stages:
//! gravity accumulation, input-driven player control, and position
//! integration.  Integration is explicit Euler: gravity is added to the
//! velocity first, then the (possibly re-blended) velocity is added to the
//! position, one fixed step per tick.

use vstd::prelude::*;
use crate::fixed::{abs_spec, lerp_spec, flerp, abs_val};
use crate::vec2::{V2, v2_small};

verus! {

/// Horizontal target speed while a move direction is held (5 units/tick).
pub const PLAYER_SPEED: i64 = 5000;

/// Blend factor toward the target speed while accelerating (0.05).
pub const PLAYER_ACCEL: i64 = 50;

/// Blend factor toward the target speed while decelerating (0.08).
pub const PLAYER_DECEL: i64 = 80;

/// Vertical velocity set on a jump edge (8 units/tick).
pub const PLAYER_JUMP_STRENGTH: i64 = 8000;

/// Vertical gravity acceleration (-0.2 units/tick^2).
pub const GRAVITY: i64 = -200;

/// Visual footprint set on a jump edge: a wide, shortened stretch.
pub const JUMP_VIS_X: i64 = 80_000;

pub const JUMP_VIS_Y: i64 = 70_000;

/// Magnitude limit on the scalars of a well-formed steady-state entity;
/// the per-tick contracts accept a wide margin above it.
pub const WORLD_LIMIT: i64 = 10_000_000_000;

/// A scalar within the steady-state world bound.
pub open spec fn in_world(v: int) -> bool {
    -WORLD_LIMIT <= v <= WORLD_LIMIT
}

pub open spec fn v2_world(v: V2) -> bool {
    in_world(v.x as int) && in_world(v.y as int)
}

/// A size vector: componentwise nonnegative and within the world bound.
pub open spec fn size_wf(v: V2) -> bool {
    0 <= v.x <= WORLD_LIMIT && 0 <= v.y <= WORLD_LIMIT
}

/// The player body: kinematic state, logical and visual footprint,
/// grounded flag, and the presentation fields (lean angle, render depth).
#[derive(Clone, Copy, PartialEq, Eq, Structural, Debug)]
pub struct PlayerState {
    pub position: V2,
    pub velocity: V2,
    pub shape: V2,
    pub vis_shape: V2,
    pub gravity: V2,
    pub grounded: bool,
    pub rotation: i64,
    pub z_order: i64,
}

impl PlayerState {
    /// A freshly spawned player at `position` with logical footprint
    /// `shape`: visual footprint equal to the logical one, downward gravity,
    /// a slight upward initial velocity, airborne, upright, drawn above the
    /// level geometry.
    pub fn new(position: V2, shape: V2) -> (p: PlayerState)
        ensures
            p == (PlayerState {
                position,
                velocity: V2 { x: 0, y: 2000 },
                shape,
                vis_shape: shape,
                gravity: V2 { x: 0, y: GRAVITY },
                grounded: false,
                rotation: 0,
                z_order: 100,
            }),
    {
        PlayerState {
            position,
            velocity: V2 { x: 0, y: 2000 },
            shape,
            vis_shape: shape,
            gravity: V2 { x: 0, y: GRAVITY },
            grounded: false,
            rotation: 0,
            z_order: 100,
        }
    }
}

/// A well-formed steady-state player record.
pub open spec fn player_wf(p: PlayerState) -> bool {
    &&& v2_world(p.position)
    &&& v2_world(p.velocity)
    &&& v2_world(p.gravity)
    &&& size_wf(p.shape)
    &&& size_wf(p.vis_shape)
    &&& in_world(p.rotation as int)
}

/// The camera body: pursued position and damped velocity, plus the
/// presentation fields.
#[derive(Clone, Copy, PartialEq, Eq, Structural, Debug)]
pub struct CameraState {
    pub position: V2,
    pub velocity: V2,
    pub rotation: i64,
    pub z_order: i64,
}

impl CameraState {
    /// A freshly spawned camera at the origin, at rest.
    pub fn new() -> (c: CameraState)
        ensures
            c == (CameraState {
                position: V2 { x: 0, y: 0 },
                velocity: V2 { x: 0, y: 0 },
                rotation: 0,
                z_order: 0,
            }),
    {
        CameraState {
            position: V2 { x: 0, y: 0 },
            velocity: V2 { x: 0, y: 0 },
            rotation: 0,
            z_order: 0,
        }
    }
}

pub open spec fn camera_wf(c: CameraState) -> bool {
    v2_world(c.position) && v2_world(c.velocity)
}

/// A static collider record of the level: center position and full size.
#[derive(Clone, Copy, PartialEq, Eq, Structural, Debug)]
pub struct BlockData {
    pub position: V2,
    pub shape: V2,
}

impl BlockData {
    pub fn new(position: V2, shape: V2) -> (b: BlockData)
        ensures
            b == (BlockData { position, shape }),
    {
        BlockData { position, shape }
    }
}

pub open spec fn block_wf(b: BlockData) -> bool {
    v2_world(b.position) && size_wf(b.shape)
}

/// The input collaborator's per-tick report: level-triggered move holds and
/// the edge-triggered jump press.
#[derive(Clone, Copy, PartialEq, Eq, Structural, Debug)]
pub struct Input {
    pub move_left_held: bool,
    pub move_right_held: bool,
    pub jump_pressed: bool,
}

/// Gravity stage: one Euler step of the gravity acceleration into the
/// velocity.
pub open spec fn gravitate_spec(p: PlayerState) -> PlayerState {
    PlayerState {
        position: p.position,
        velocity: V2 {
            x: (p.velocity.x + p.gravity.x) as i64,
            y: (p.velocity.y + p.gravity.y) as i64,
        },
        shape: p.shape,
        vis_shape: p.vis_shape,
        gravity: p.gravity,
        grounded: p.grounded,
        rotation: p.rotation,
        z_order: p.z_order,
    }
}

pub fn gravitate(p: &mut PlayerState)
    requires
        v2_small(old(p).velocity),
        v2_small(old(p).gravity),
    ensures
        *final(p) == gravitate_spec(*old(p)),
{
    p.velocity = p.velocity.plus(p.gravity);
}

/// Horizontal target speed from the held directions; opposing holds
/// accumulate additively and cancel to zero.
pub open spec fn target_speed_spec(input: Input) -> int {
    (if input.move_right_held {
        PLAYER_SPEED as int
    } else {
        0
    }) + (if input.move_left_held {
        -PLAYER_SPEED as int
    } else {
        0
    })
}

/// Player control stage.  A jump edge overwrites the vertical velocity with
/// the jump strength (grounded or not) and squashes the visual footprint;
/// the horizontal velocity blends exponentially toward the target speed,
/// with the faster deceleration factor when the target magnitude is below
/// the current one.
pub open spec fn control_spec(p: PlayerState, input: Input) -> PlayerState {
    let target = target_speed_spec(input);
    let vy = if input.jump_pressed {
        PLAYER_JUMP_STRENGTH as int
    } else {
        p.velocity.y as int
    };
    let vis = if input.jump_pressed {
        V2 { x: JUMP_VIS_X, y: JUMP_VIS_Y }
    } else {
        p.vis_shape
    };
    let t = if abs_spec(target) < abs_spec(p.velocity.x as int) {
        PLAYER_DECEL as int
    } else {
        PLAYER_ACCEL as int
    };
    PlayerState {
        position: p.position,
        velocity: V2 { x: lerp_spec(p.velocity.x as int, target, t) as i64, y: vy as i64 },
        shape: p.shape,
        vis_shape: vis,
        gravity: p.gravity,
        grounded: p.grounded,
        rotation: p.rotation,
        z_order: p.z_order,
    }
}

pub fn control_player(p: &mut PlayerState, input: Input)
    requires
        v2_small(old(p).velocity),
    ensures
        *final(p) == control_spec(*old(p), input),
{
    let mut target: i64 = 0;
    if input.move_right_held {
        target = target + PLAYER_SPEED;
    }
    if input.move_left_held {
        target = target - PLAYER_SPEED;
    }
    if input.jump_pressed {
        p.velocity = V2 { x: p.velocity.x, y: PLAYER_JUMP_STRENGTH };
        p.vis_shape = V2 { x: JUMP_VIS_X, y: JUMP_VIS_Y };
    }
    let t: i64 = if abs_val(target) < abs_val(p.velocity.x) {
        PLAYER_DECEL
    } else {
        PLAYER_ACCEL
    };
    p.velocity = V2 { x: flerp(p.velocity.x, target, t), y: p.velocity.y };
}

/// While only move-right is held and the horizontal velocity is between
/// rest and the cap, the control stage raises it monotonically and never
/// past `PLAYER_SPEED`.
pub proof fn lemma_accel_monotone(p: PlayerState, input: Input)
    requires
        input.move_right_held,
        !input.move_left_held,
        0 <= p.velocity.x <= PLAYER_SPEED,
    ensures
        p.velocity.x <= control_spec(p, input).velocity.x <= PLAYER_SPEED,
{
    let target = target_speed_spec(input);
    let t = if abs_spec(target) < abs_spec(p.velocity.x as int) {
        PLAYER_DECEL as int
    } else {
        PLAYER_ACCEL as int
    };
    crate::fixed::lemma_lerp_between(p.velocity.x as int, target, t);
}

/// Position integration: one fixed step of the velocity into the position.
pub open spec fn move_player_spec(p: PlayerState) -> PlayerState {
    PlayerState {
        position: V2 {
            x: (p.position.x + p.velocity.x) as i64,
            y: (p.position.y + p.velocity.y) as i64,
        },
        velocity: p.velocity,
        shape: p.shape,
        vis_shape: p.vis_shape,
        gravity: p.gravity,
        grounded: p.grounded,
        rotation: p.rotation,
        z_order: p.z_order,
    }
}

pub open spec fn move_camera_spec(c: CameraState) -> CameraState {
    CameraState {
        position: V2 {
            x: (c.position.x + c.velocity.x) as i64,
            y: (c.position.y + c.velocity.y) as i64,
        },
        velocity: c.velocity,
        rotation: c.rotation,
        z_order: c.z_order,
    }
}

/// Move stage: every entity with a position and a velocity advances by one
/// velocity step; here those are the player and the camera.
pub fn move_bodies(p: &mut PlayerState, c: &mut CameraState)
    requires
        v2_small(old(p).position),
        v2_small(old(p).velocity),
        v2_small(old(c).position),
        v2_small(old(c).velocity),
    ensures
        *final(p) == move_player_spec(*old(p)),
        *final(c) == move_camera_spec(*old(c)),
{
    p.position = p.position.plus(p.velocity);
    c.position = c.position.plus(c.velocity);
}

} // verus!
