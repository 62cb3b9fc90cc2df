//! Camera controller: damped pursuit of the player.  The controller only
//! ever sets the camera's velocity; the shared move stage advances the
//! camera's position on the next tick.

use vstd::prelude::*;
use crate::fixed::{small, scale_mul_spec, scale_mul};
use crate::vec2::{V2, v2_small, vlerp_spec, vlerp};
use crate::body::CameraState;

verus! {

/// Damping factor applied to the camera-to-player offset (0.04).
pub const CAMERA_DAMPING: i64 = 40;

/// Blend factor of the damped pursuit velocity into the current camera
/// velocity (0.1).
pub const CAMERA_BLEND: i64 = 100;

/// Squared stop distance in raw units: the camera velocity is forced to
/// zero when the squared camera-to-player distance is at most this (0.1
/// world units), preventing jitter at rest.
pub const STOP_DIST_SQ: i64 = 10_000;

/// Camera velocity update: when the player is farther than the stop
/// distance, blend the current velocity toward the damped offset; when at
/// most the stop distance, halt.
pub open spec fn camera_follow_spec(c: CameraState, player_position: V2) -> CameraState {
    let dx = player_position.x - c.position.x;
    let dy = player_position.y - c.position.y;
    CameraState {
        position: c.position,
        velocity: if dx * dx + dy * dy > STOP_DIST_SQ {
            vlerp_spec(
                c.velocity,
                V2 {
                    x: scale_mul_spec(dx, CAMERA_DAMPING as int) as i64,
                    y: scale_mul_spec(dy, CAMERA_DAMPING as int) as i64,
                },
                CAMERA_BLEND as int,
            )
        } else {
            V2 { x: 0, y: 0 }
        },
        rotation: c.rotation,
        z_order: c.z_order,
    }
}

pub fn camera_follow(c: &mut CameraState, player_position: V2)
    requires
        small(player_position.x - old(c).position.x),
        small(player_position.y - old(c).position.y),
        v2_small(old(c).velocity),
    ensures
        *final(c) == camera_follow_spec(*old(c), player_position),
{
    let dx: i64 = player_position.x - c.position.x;
    let dy: i64 = player_position.y - c.position.y;
    proof {
        assert(0 <= dx * dx <= 16_000_000_000_000_000_000_000_000_000_000 && 0 <= dy * dy
            <= 16_000_000_000_000_000_000_000_000_000_000) by (nonlinear_arith)
            requires
                -4_000_000_000_000_000 <= dx <= 4_000_000_000_000_000,
                -4_000_000_000_000_000 <= dy <= 4_000_000_000_000_000,
        ;
    }
    let dx2: i128 = (dx as i128) * (dx as i128);
    let dy2: i128 = (dy as i128) * (dy as i128);
    if dx2 + dy2 > (STOP_DIST_SQ as i128) {
        let nvx: i64 = scale_mul(dx, CAMERA_DAMPING);
        let nvy: i64 = scale_mul(dy, CAMERA_DAMPING);
        c.velocity = vlerp(c.velocity, V2 { x: nvx, y: nvy }, CAMERA_BLEND);
    } else {
        c.velocity = V2 { x: 0, y: 0 };
    }
}

} // verus!
