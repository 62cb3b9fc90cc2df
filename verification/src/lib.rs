//! Per-tick simulation core of a 2D platformer: fixed-step kinematic
//! integration, player-versus-static-geometry AABB collision resolution with
//! side classification and grounded tracking, damped camera pursuit, and
//! squash/lean visual feedback.  All scalars are fixed-point `i64` values
//! (see [`fixed`]), so every tick is an exact, deterministic function of the
//! previous state and the tick's input.

pub mod body;
pub mod camera;
pub mod effects;
pub mod fixed;
pub mod geom;
pub mod resolve;
pub mod vec2;
pub mod world;
