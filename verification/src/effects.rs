//! Visual feedback stage: squash recovery of the visual footprint and the
//! lean rotation derived from horizontal speed.  Both are cosmetic
//! derivations from physics state, applied after collision resolution.

use vstd::prelude::*;
use crate::fixed::{small, lerp_spec, flerp, div_floor, SCALE};
use crate::vec2::{v2_small, vlerp_spec, vlerp};
use crate::body::{PlayerState, PLAYER_SPEED};

verus! {

/// Blend factor of the visual footprint back toward the logical shape per
/// tick (0.05): slow exponential recovery after a squash.
pub const SQUASH_SNAPPINESS: i64 = 50;

/// Lean angle at full horizontal speed (-0.3 radians).
pub const MAX_LEAN: i64 = -300;

/// Horizontal speed as a fixed-point fraction of the speed cap.
pub open spec fn speed_ratio_spec(vx: int) -> int {
    (vx * SCALE) / (PLAYER_SPEED as int)
}

/// Squash recovery and lean rotation: the visual footprint relaxes toward
/// the logical shape, and the rotation is the blend from upright to the
/// maximum lean parameterized by the horizontal speed ratio.
pub open spec fn player_effects_spec(p: PlayerState) -> PlayerState {
    PlayerState {
        position: p.position,
        velocity: p.velocity,
        shape: p.shape,
        vis_shape: vlerp_spec(p.vis_shape, p.shape, SQUASH_SNAPPINESS as int),
        gravity: p.gravity,
        grounded: p.grounded,
        rotation: lerp_spec(0, MAX_LEAN as int, speed_ratio_spec(p.velocity.x as int)) as i64,
        z_order: p.z_order,
    }
}

pub fn player_effects(p: &mut PlayerState)
    requires
        v2_small(old(p).vis_shape),
        v2_small(old(p).shape),
        small(old(p).velocity.x as int),
    ensures
        *final(p) == player_effects_spec(*old(p)),
{
    p.vis_shape = vlerp(p.vis_shape, p.shape, SQUASH_SNAPPINESS);
    let scaled: i64 = p.velocity.x * SCALE;
    let ratio: i64 = div_floor(scaled, PLAYER_SPEED);
    proof {
        vstd::arithmetic::div_mod::lemma_div_is_ordered(
            scaled as int,
            4_000_000_000_000_000_000,
            PLAYER_SPEED as int,
        );
        vstd::arithmetic::div_mod::lemma_div_is_ordered(
            -4_000_000_000_000_000_000,
            scaled as int,
            PLAYER_SPEED as int,
        );
    }
    p.rotation = flerp(0, MAX_LEAN, ratio);
}

} // verus!
