//! Collision resolver: the player's box against every static collider, in
//! collider order.  Corrections apply sequentially to the player's position
//! and velocity, while the scanned player box itself is built once from the
//! position at the start of the pass (so each collider is classified
//! against the same box).  A Bottom contact on an airborne player fires the
//! landing squash exactly once, and the grounded flag is recomputed from
//! the pass as a whole.

use vstd::prelude::*;
use crate::fixed::{abs_spec, div_floor};
use crate::vec2::{V2, v2_small};
use crate::geom::{Aabb, Collision, collide, collide_spec, aabb_wf};
use crate::body::{PlayerState, BlockData, block_wf, size_wf};

verus! {

/// Visual footprint snapped on landing: a wide squash.
pub const LAND_VIS_X: i64 = 80_000;

pub const LAND_VIS_Y: i64 = 80_000;

/// Downward position nudge on landing (10 units), modeling squash impact.
pub const LAND_NUDGE: i64 = 10_000;

/// Magnitude limit on the player position entering a resolution pass (the
/// position integrator can carry it this far beyond the world bound within
/// one tick).
pub const RESOLVE_LIMIT: i64 = 100_000_000_000;

/// A single resolution step moves the player by less than this along each
/// axis.
pub const STEP_LIMIT: i64 = 200_000_000_000;

/// Most colliders a level may hold.
pub const MAX_BLOCKS: usize = 10_000;

/// Half of a size vector, rounded down.
pub open spec fn half_spec(v: V2) -> V2 {
    V2 { x: (v.x as int / 2) as i64, y: (v.y as int / 2) as i64 }
}

pub fn half_vec(v: V2) -> (r: V2)
    requires
        v2_small(v),
    ensures
        r == half_spec(v),
{
    V2 { x: div_floor(v.x, 2), y: div_floor(v.y, 2) }
}

/// The player's collision footprint: an AABB at the player position whose
/// half-size comes from the current visual shape, so squash state affects
/// the hitbox.
pub open spec fn player_aabb_spec(p: PlayerState) -> Aabb {
    Aabb { center: p.position, half: half_spec(p.vis_shape) }
}

pub open spec fn block_aabb_spec(b: BlockData) -> Aabb {
    Aabb { center: b.position, half: half_spec(b.shape) }
}

/// One per-collider step of the pass: classify the fixed player box `pb`
/// against the collider, zero the velocity component along the resolved
/// axis, translate the position by the pushout, and on a Bottom contact of
/// an airborne player fire the landing squash (enlarged visual footprint,
/// downward nudge) and ground the player.
pub open spec fn resolve_step_spec(pb: Aabb, p: PlayerState, b: BlockData) -> PlayerState {
    match collide_spec(pb, block_aabb_spec(b)) {
        Option::None => p,
        Option::Some((side, clip)) => match side {
            Collision::Top => PlayerState {
                position: V2 { x: p.position.x, y: (p.position.y - clip.y) as i64 },
                velocity: V2 { x: p.velocity.x, y: 0 },
                shape: p.shape,
                vis_shape: p.vis_shape,
                gravity: p.gravity,
                grounded: p.grounded,
                rotation: p.rotation,
                z_order: p.z_order,
            },
            Collision::Bottom => PlayerState {
                position: V2 {
                    x: p.position.x,
                    y: if !p.grounded {
                        (p.position.y + clip.y - LAND_NUDGE) as i64
                    } else {
                        (p.position.y + clip.y) as i64
                    },
                },
                velocity: V2 { x: p.velocity.x, y: 0 },
                shape: p.shape,
                vis_shape: if !p.grounded {
                    V2 { x: LAND_VIS_X, y: LAND_VIS_Y }
                } else {
                    p.vis_shape
                },
                gravity: p.gravity,
                grounded: true,
                rotation: p.rotation,
                z_order: p.z_order,
            },
            Collision::Left => PlayerState {
                position: V2 { x: (p.position.x + clip.x) as i64, y: p.position.y },
                velocity: V2 { x: 0, y: p.velocity.y },
                shape: p.shape,
                vis_shape: p.vis_shape,
                gravity: p.gravity,
                grounded: p.grounded,
                rotation: p.rotation,
                z_order: p.z_order,
            },
            Collision::Right => PlayerState {
                position: V2 { x: (p.position.x - clip.x) as i64, y: p.position.y },
                velocity: V2 { x: 0, y: p.velocity.y },
                shape: p.shape,
                vis_shape: p.vis_shape,
                gravity: p.gravity,
                grounded: p.grounded,
                rotation: p.rotation,
                z_order: p.z_order,
            },
        },
    }
}

/// The pass after the first `n` colliders, in collider order.
pub open spec fn resolve_upto_spec(pb: Aabb, p0: PlayerState, blocks: Seq<BlockData>, n: int) -> PlayerState
    decreases n,
{
    if n <= 0 {
        p0
    } else {
        resolve_step_spec(pb, resolve_upto_spec(pb, p0, blocks, n - 1), blocks[n - 1])
    }
}

/// Whether the fixed player box contacts collider `b` on the Bottom side.
pub open spec fn bottom_hit_spec(pb: Aabb, b: BlockData) -> bool {
    match collide_spec(pb, block_aabb_spec(b)) {
        Option::Some((side, clip)) => side is Bottom,
        Option::None => false,
    }
}

/// Whether any of the first `n` colliders is a Bottom contact.
pub open spec fn any_bottom_spec(pb: Aabb, blocks: Seq<BlockData>, n: int) -> bool {
    exists|i: int| 0 <= i < n && bottom_hit_spec(pb, blocks[i])
}

/// The whole resolution pass: every collider in order, then the grounded
/// flag recomputed — true iff the pass produced at least one Bottom
/// contact.
pub open spec fn resolve_spec(p: PlayerState, blocks: Seq<BlockData>) -> PlayerState {
    let pb = player_aabb_spec(p);
    let pf = resolve_upto_spec(pb, p, blocks, blocks.len() as int);
    if any_bottom_spec(pb, blocks, blocks.len() as int) {
        pf
    } else {
        PlayerState {
            position: pf.position,
            velocity: pf.velocity,
            shape: pf.shape,
            vis_shape: pf.vis_shape,
            gravity: pf.gravity,
            grounded: false,
            rotation: pf.rotation,
            z_order: pf.z_order,
        }
    }
}

/// The pushout of an intersecting pair is bounded by the boxes' extents.
proof fn lemma_clip_bound(b1: Aabb, b2: Aabb)
    requires
        aabb_wf(b1),
        aabb_wf(b2),
        collide_spec(b1, b2) is Some,
    ensures
        ({
            let (side, clip) = collide_spec(b1, b2).unwrap();
            &&& abs_spec(clip.x as int) <= b1.half.x + abs_spec(b1.center.x as int) + abs_spec(
                b2.center.x as int,
            ) + b2.half.x
            &&& abs_spec(clip.y as int) <= b1.half.y + abs_spec(b1.center.y as int) + abs_spec(
                b2.center.y as int,
            ) + b2.half.y
        }),
{
}

/// Grounded flag of a partial pass: the incoming flag, or any Bottom
/// contact among the colliders scanned so far.
proof fn lemma_upto_grounded(pb: Aabb, p0: PlayerState, blocks: Seq<BlockData>, n: int)
    requires
        0 <= n <= blocks.len(),
    ensures
        resolve_upto_spec(pb, p0, blocks, n).grounded == (p0.grounded || any_bottom_spec(
            pb,
            blocks,
            n,
        )),
    decreases n,
{
    if n > 0 {
        lemma_upto_grounded(pb, p0, blocks, n - 1);
        if bottom_hit_spec(pb, blocks[n - 1]) {
            assert(any_bottom_spec(pb, blocks, n));
        } else {
            assert(any_bottom_spec(pb, blocks, n) == any_bottom_spec(pb, blocks, n - 1)) by {
                if any_bottom_spec(pb, blocks, n) {
                    let i = choose|i: int| 0 <= i < n && bottom_hit_spec(pb, blocks[i]);
                    assert(0 <= i < n - 1 && bottom_hit_spec(pb, blocks[i]));
                }
                if any_bottom_spec(pb, blocks, n - 1) {
                    let i = choose|i: int| 0 <= i < n - 1 && bottom_hit_spec(pb, blocks[i]);
                    assert(0 <= i < n && bottom_hit_spec(pb, blocks[i]));
                }
            }
        }
    }
}

/// Grounded law: after a resolution pass the grounded flag is true iff the
/// pass produced at least one Bottom contact against the player box the
/// pass scanned with — whatever the flag was before the pass.  In
/// particular it flips to false on the first pass with no Bottom contact.
pub proof fn lemma_grounded_iff_bottom(p: PlayerState, blocks: Seq<BlockData>)
    ensures
        resolve_spec(p, blocks).grounded <==> any_bottom_spec(
            player_aabb_spec(p),
            blocks,
            blocks.len() as int,
        ),
{
    lemma_upto_grounded(player_aabb_spec(p), p, blocks, blocks.len() as int);
}

/// Resolution pass over all colliders, exactly `resolve_spec`, with the
/// motion bounded: each scanned collider moves the player along each axis
/// by less than `STEP_LIMIT`, the velocity components only ever drop to
/// zero, and the visual footprint stays a well-formed size.
#[verifier::rlimit(100)]
pub fn handle_collisions(p: &mut PlayerState, blocks: &Vec<BlockData>)
    requires
        -RESOLVE_LIMIT <= old(p).position.x <= RESOLVE_LIMIT,
        -RESOLVE_LIMIT <= old(p).position.y <= RESOLVE_LIMIT,
        v2_small(old(p).velocity),
        size_wf(old(p).vis_shape),
        blocks@.len() <= MAX_BLOCKS,
        forall|i: int| 0 <= i < blocks@.len() ==> block_wf(#[trigger] blocks@[i]),
    ensures
        *final(p) == resolve_spec(*old(p), blocks@),
        abs_spec(final(p).position.x as int) <= abs_spec(old(p).position.x as int) + blocks@.len()
            * STEP_LIMIT,
        abs_spec(final(p).position.y as int) <= abs_spec(old(p).position.y as int) + blocks@.len()
            * STEP_LIMIT,
        abs_spec(final(p).velocity.x as int) <= abs_spec(old(p).velocity.x as int),
        abs_spec(final(p).velocity.y as int) <= abs_spec(old(p).velocity.y as int),
        size_wf(final(p).vis_shape),
        final(p).shape == old(p).shape,
        final(p).gravity == old(p).gravity,
        final(p).rotation == old(p).rotation,
        final(p).z_order == old(p).z_order,
{
    let ghost p0 = *p;
    let pb = Aabb::new(p.position, half_vec(p.vis_shape));
    let n = blocks.len();
    let mut any_bottom = false;
    let mut i: usize = 0;
    while i < n
        invariant
            n == blocks@.len(),
            n <= MAX_BLOCKS,
            0 <= i <= n,
            forall|k: int| 0 <= k < blocks@.len() ==> block_wf(#[trigger] blocks@[k]),
            pb == player_aabb_spec(p0),
            aabb_wf(pb),
            -RESOLVE_LIMIT <= p0.position.x <= RESOLVE_LIMIT,
            -RESOLVE_LIMIT <= p0.position.y <= RESOLVE_LIMIT,
            v2_small(p0.velocity),
            size_wf(p0.vis_shape),
            *p == resolve_upto_spec(pb, p0, blocks@, i as int),
            any_bottom == any_bottom_spec(pb, blocks@, i as int),
            abs_spec(p.position.x as int) <= abs_spec(p0.position.x as int) + i * STEP_LIMIT,
            abs_spec(p.position.y as int) <= abs_spec(p0.position.y as int) + i * STEP_LIMIT,
            abs_spec(p.velocity.x as int) <= abs_spec(p0.velocity.x as int),
            abs_spec(p.velocity.y as int) <= abs_spec(p0.velocity.y as int),
            size_wf(p.vis_shape),
            p.shape == p0.shape,
            p.gravity == p0.gravity,
            p.rotation == p0.rotation,
            p.z_order == p0.z_order,
        decreases n - i,
    {
        let b = &blocks[i];
        let ba = Aabb::new(b.position, half_vec(b.shape));
        proof {
            if collide_spec(pb, ba) is Some {
                lemma_clip_bound(pb, ba);
            }
        }
        match collide(&pb, &ba) {
            Option::None => {},
            Option::Some((side, clip)) => {
                match side {
                    Collision::Top => {
                        p.velocity = V2 { x: p.velocity.x, y: 0 };
                        p.position = V2 { x: p.position.x, y: p.position.y - clip.y };
                    },
                    Collision::Bottom => {
                        p.velocity = V2 { x: p.velocity.x, y: 0 };
                        p.position = V2 { x: p.position.x, y: p.position.y + clip.y };
                        if !p.grounded {
                            p.vis_shape = V2 { x: LAND_VIS_X, y: LAND_VIS_Y };
                            p.position = V2 { x: p.position.x, y: p.position.y - LAND_NUDGE };
                        }
                        p.grounded = true;
                        any_bottom = true;
                        proof {
                            assert(bottom_hit_spec(pb, blocks@[i as int]));
                            assert(any_bottom_spec(pb, blocks@, i + 1));
                        }
                    },
                    Collision::Left => {
                        p.velocity = V2 { x: 0, y: p.velocity.y };
                        p.position = V2 { x: p.position.x + clip.x, y: p.position.y };
                    },
                    Collision::Right => {
                        p.velocity = V2 { x: 0, y: p.velocity.y };
                        p.position = V2 { x: p.position.x - clip.x, y: p.position.y };
                    },
                }
            },
        }
        proof {
            if !bottom_hit_spec(pb, blocks@[i as int]) {
                assert(any_bottom_spec(pb, blocks@, i + 1) == any_bottom_spec(
                    pb,
                    blocks@,
                    i as int,
                )) by {
                    if any_bottom_spec(pb, blocks@, i + 1) {
                        let k = choose|k: int|
                            0 <= k < i + 1 && bottom_hit_spec(pb, blocks@[k]);
                        assert(0 <= k < i && bottom_hit_spec(pb, blocks@[k]));
                    }
                    if any_bottom_spec(pb, blocks@, i as int) {
                        let k = choose|k: int| 0 <= k < i && bottom_hit_spec(pb, blocks@[k]);
                        assert(0 <= k < i + 1 && bottom_hit_spec(pb, blocks@[k]));
                    }
                }
            }
        }
        i = i + 1;
    }
    if !any_bottom {
        p.grounded = false;
    }
    proof {
        lemma_upto_grounded(pb, p0, blocks@, n as int);
    }
}

} // verus!
