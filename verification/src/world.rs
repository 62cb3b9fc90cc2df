//! The simulation world and the fixed-tick pipeline.  The per-tick stage
//! order is load-bearing and explicit: gravity, player control, position
//! integration, collision resolution, camera update, visual feedback.  The
//! presentation projector (mapping position, rotation and depth onto the
//! host engine's render transform) is the host's side of the boundary and
//! consumes the fields this module keeps current.

use vstd::prelude::*;
use crate::vec2::V2;
use crate::body::{
    PlayerState,
    CameraState,
    BlockData,
    Input,
    player_wf,
    camera_wf,
    block_wf,
    gravitate_spec,
    control_spec,
    move_player_spec,
    move_camera_spec,
    gravitate,
    control_player,
    move_bodies,
};
use crate::resolve::{resolve_spec, handle_collisions, MAX_BLOCKS};
use crate::camera::{camera_follow_spec, camera_follow};
use crate::effects::{player_effects_spec, player_effects};

verus! {

/// The whole simulated scene: exactly one player, exactly one camera, and
/// the static colliders in creation order.
#[derive(Clone, Debug)]
pub struct World {
    pub player: PlayerState,
    pub camera: CameraState,
    pub blocks: Vec<BlockData>,
}

/// A well-formed steady-state world; `tick` requires it and the host
/// re-checks it between ticks (a violation is a fatal numeric-invariant
/// break, not a recoverable error).
pub open spec fn world_wf(w: World) -> bool {
    &&& player_wf(w.player)
    &&& camera_wf(w.camera)
    &&& w.blocks@.len() <= MAX_BLOCKS
    &&& forall|i: int| 0 <= i < w.blocks@.len() ==> block_wf(#[trigger] w.blocks@[i])
}

/// The player after one full tick: gravity, control, move, collision
/// resolution, visual feedback.
pub open spec fn tick_player_spec(p: PlayerState, blocks: Seq<BlockData>, input: Input) -> PlayerState {
    player_effects_spec(
        resolve_spec(move_player_spec(control_spec(gravitate_spec(p), input)), blocks),
    )
}

/// The camera after one full tick: it advances by its own velocity in the
/// shared move stage, then pursues the player's post-resolution position.
pub open spec fn tick_camera_spec(
    c: CameraState,
    p: PlayerState,
    blocks: Seq<BlockData>,
    input: Input,
) -> CameraState {
    camera_follow_spec(
        move_camera_spec(c),
        resolve_spec(move_player_spec(control_spec(gravitate_spec(p), input)), blocks).position,
    )
}

/// One fixed simulation step, the stages in their load-bearing order.
pub fn tick(w: &mut World, input: Input)
    requires
        world_wf(*old(w)),
    ensures
        final(w).player == tick_player_spec(old(w).player, old(w).blocks@, input),
        final(w).camera == tick_camera_spec(old(w).camera, old(w).player, old(w).blocks@, input),
        final(w).blocks@ == old(w).blocks@,
{
    gravitate(&mut w.player);
    control_player(&mut w.player, input);
    proof {
        let p1 = gravitate_spec(old(w).player);
        let target = crate::body::target_speed_spec(input);
        crate::fixed::lemma_lerp_between(p1.velocity.x as int, target, crate::body::PLAYER_ACCEL as int);
        crate::fixed::lemma_lerp_between(p1.velocity.x as int, target, crate::body::PLAYER_DECEL as int);
    }
    move_bodies(&mut w.player, &mut w.camera);
    handle_collisions(&mut w.player, &w.blocks);
    let player_position = w.player.position;
    camera_follow(&mut w.camera, player_position);
    player_effects(&mut w.player);
}

/// The trajectory: the player and camera after running the pipeline once
/// per input, in input order, over a fixed collider set.
pub open spec fn run_spec(
    p: PlayerState,
    c: CameraState,
    blocks: Seq<BlockData>,
    inputs: Seq<Input>,
) -> (PlayerState, CameraState)
    decreases inputs.len(),
{
    if inputs.len() == 0 {
        (p, c)
    } else {
        run_spec(
            tick_player_spec(p, blocks, inputs[0]),
            tick_camera_spec(c, p, blocks, inputs[0]),
            blocks,
            inputs.skip(1),
        )
    }
}

/// Integrator determinism: the trajectory is a function of the initial
/// state, the collider set and the input sequence alone — two runs from
/// equal states under equal input sequences coincide exactly, tick by tick.
/// `tick` returns precisely `tick_player_spec`/`tick_camera_spec`, so
/// repeated executable runs reproduce the same positions bit for bit; no
/// stage reads a clock or any other ambient state.
pub proof fn lemma_run_deterministic(
    p1: PlayerState,
    c1: CameraState,
    blocks1: Seq<BlockData>,
    inputs1: Seq<Input>,
    p2: PlayerState,
    c2: CameraState,
    blocks2: Seq<BlockData>,
    inputs2: Seq<Input>,
)
    requires
        p1 == p2,
        c1 == c2,
        blocks1 == blocks2,
        inputs1 == inputs2,
    ensures
        run_spec(p1, c1, blocks1, inputs1) == run_spec(p2, c2, blocks2, inputs2),
{
}

/// The static level data, in creation order: a wide floor and a square
/// ledge to its right.
pub fn init_world() -> (blocks: Vec<BlockData>)
    ensures
        blocks@.len() == 2,
        blocks@[0] == (BlockData {
            position: V2 { x: 0, y: -300_000i64 },
            shape: V2 { x: 400_000, y: 50_000 },
        }),
        blocks@[1] == (BlockData {
            position: V2 { x: 225_000, y: -250_000i64 },
            shape: V2 { x: 50_000, y: 50_000 },
        }),
{
    let mut blocks: Vec<BlockData> = Vec::new();
    blocks.push(BlockData::new(V2::new(0, -300_000), V2::new(400_000, 50_000)));
    blocks.push(BlockData::new(V2::new(225_000, -250_000), V2::new(50_000, 50_000)));
    blocks
}

/// The player as spawned at startup: at the origin with a 60 x 100 logical
/// footprint.
pub fn spawn_player() -> (p: PlayerState)
    ensures
        p == (PlayerState {
            position: V2 { x: 0, y: 0 },
            velocity: V2 { x: 0, y: 2000 },
            shape: V2 { x: 60_000, y: 100_000 },
            vis_shape: V2 { x: 60_000, y: 100_000 },
            gravity: V2 { x: 0, y: crate::body::GRAVITY },
            grounded: false,
            rotation: 0,
            z_order: 100,
        }),
{
    PlayerState::new(V2::new(0, 0), V2::new(60_000, 100_000))
}

/// The camera as spawned at startup: at the origin, at rest.
pub fn spawn_camera() -> (c: CameraState)
    ensures
        c == (CameraState {
            position: V2 { x: 0, y: 0 },
            velocity: V2 { x: 0, y: 0 },
            rotation: 0,
            z_order: 0,
        }),
{
    CameraState::new()
}

} // verus!
