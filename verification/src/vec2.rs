//! Two-dimensional fixed-point vectors.

use vstd::prelude::*;
use crate::fixed::{small, lerp_spec, flerp, SCALE};

verus! {

/// A 2D vector of fixed-point scalars (see [`crate::fixed`]).
#[derive(Clone, Copy, PartialEq, Eq, Structural, Debug)]
pub struct V2 {
    pub x: i64,
    pub y: i64,
}

/// Both components within the arithmetic helpers' domain.
pub open spec fn v2_small(v: V2) -> bool {
    small(v.x as int) && small(v.y as int)
}

impl V2 {
    pub fn new(x: i64, y: i64) -> (v: V2)
        ensures
            v == (V2 { x, y }),
    {
        V2 { x, y }
    }

    /// Componentwise sum.
    pub fn plus(self, other: V2) -> (r: V2)
        requires
            v2_small(self),
            v2_small(other),
        ensures
            r == (V2 { x: (self.x + other.x) as i64, y: (self.y + other.y) as i64 }),
    {
        V2 { x: self.x + other.x, y: self.y + other.y }
    }
}

/// Componentwise blend of `a` toward `b` by factor `t`.
pub open spec fn vlerp_spec(a: V2, b: V2, t: int) -> V2 {
    V2 { x: lerp_spec(a.x as int, b.x as int, t) as i64, y: lerp_spec(
        a.y as int,
        b.y as int,
        t,
    ) as i64 }
}

/// Componentwise linear interpolation from `a` toward `b` by the fixed-point
/// factor `t`; with `t` in `[0, SCALE]` each component stays between the two
/// endpoints.
pub fn vlerp(a: V2, b: V2, t: i64) -> (r: V2)
    requires
        v2_small(a),
        v2_small(b),
        0 <= t <= SCALE,
    ensures
        r == vlerp_spec(a, b, t as int),
{
    proof {
        assert(-9_000_000_000_000_000_000 <= t * (b.x - a.x) <= 9_000_000_000_000_000_000)
            by (nonlinear_arith)
            requires
                0 <= t <= 1000,
                -8_000_000_000_000_000 <= b.x - a.x <= 8_000_000_000_000_000,
        ;
        assert(-9_000_000_000_000_000_000 <= t * (b.y - a.y) <= 9_000_000_000_000_000_000)
            by (nonlinear_arith)
            requires
                0 <= t <= 1000,
                -8_000_000_000_000_000 <= b.y - a.y <= 8_000_000_000_000_000,
        ;
    }
    V2 { x: flerp(a.x, b.x, t), y: flerp(a.y, b.y, t) }
}

} // verus!
