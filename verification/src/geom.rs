//! Axis-aligned box geometry: the intersection test, penetration-side
//! classification, and pushout computation of the collision module.

use vstd::prelude::*;
use crate::fixed::{abs_spec, clamp_spec, abs_val, clamp_val};
use crate::vec2::V2;

verus! {

/// Magnitude limit on the scalars of a well-formed box; chosen so that the
/// sums the classification forms stay far from `i64` overflow.
pub const GEOM_LIMIT: i64 = 1_000_000_000_000_000;

/// The side of the moving box on which a contact is resolved.
#[derive(Clone, Copy, PartialEq, Eq, Structural, Debug)]
pub enum Collision {
    Top,
    Bottom,
    Left,
    Right,
}

/// An axis-aligned bounding box given by its center and half-size.
#[derive(Clone, Copy, PartialEq, Eq, Structural, Debug)]
pub struct Aabb {
    pub center: V2,
    pub half: V2,
}

impl Aabb {
    pub fn new(center: V2, half: V2) -> (b: Aabb)
        ensures
            b == (Aabb { center, half }),
    {
        Aabb { center, half }
    }
}

/// A box the geometry functions accept: nonnegative half-sizes, scalars
/// bounded by `GEOM_LIMIT`.
pub open spec fn aabb_wf(b: Aabb) -> bool {
    &&& 0 <= b.half.x <= GEOM_LIMIT
    &&& 0 <= b.half.y <= GEOM_LIMIT
    &&& -GEOM_LIMIT <= b.center.x <= GEOM_LIMIT
    &&& -GEOM_LIMIT <= b.center.y <= GEOM_LIMIT
}

/// Two boxes overlap iff their extents overlap on both axes; touching
/// extents count as overlapping.
pub open spec fn intersects_spec(a: Aabb, b: Aabb) -> bool {
    &&& abs_spec(a.center.x - b.center.x) <= a.half.x + b.half.x
    &&& abs_spec(a.center.y - b.center.y) <= a.half.y + b.half.y
}

/// X component of the vector from the point of `b2` closest to `b1`'s center
/// to `b1`'s center.
pub open spec fn off_x_spec(b1: Aabb, b2: Aabb) -> int {
    b1.center.x - clamp_spec(
        b1.center.x as int,
        b2.center.x - b2.half.x,
        b2.center.x + b2.half.x,
    )
}

/// Y component of the vector from the point of `b2` closest to `b1`'s center
/// to `b1`'s center.
pub open spec fn off_y_spec(b1: Aabb, b2: Aabb) -> int {
    b1.center.y - clamp_spec(
        b1.center.y as int,
        b2.center.y - b2.half.y,
        b2.center.y + b2.half.y,
    )
}

/// The contact is classified as horizontal (Left or Right) when the offset
/// magnitude plus the mover's cross-axis half-size is larger on the x axis;
/// a corner-biased heuristic, not an exact time-of-impact classification.
pub open spec fn horizontal_spec(b1: Aabb, b2: Aabb) -> bool {
    abs_spec(off_x_spec(b1, b2)) + b1.half.y > abs_spec(off_y_spec(b1, b2)) + b1.half.x
}

/// Side and pushout for an intersecting pair, `None` for a non-intersecting
/// one.  The pushout is `half - offset` for Left/Bottom and `half + offset`
/// for Right/Top, so that the resolver's sign rule moves the mover out of
/// the contact.
pub open spec fn collide_spec(b1: Aabb, b2: Aabb) -> Option<(Collision, V2)> {
    if !intersects_spec(b1, b2) {
        None
    } else {
        let ox = off_x_spec(b1, b2);
        let oy = off_y_spec(b1, b2);
        if horizontal_spec(b1, b2) {
            if ox > 0 {
                Some(
                    (
                        Collision::Left,
                        V2 { x: (b1.half.x - ox) as i64, y: (b1.half.y - oy) as i64 },
                    ),
                )
            } else {
                Some(
                    (
                        Collision::Right,
                        V2 { x: (b1.half.x + ox) as i64, y: (b1.half.y + oy) as i64 },
                    ),
                )
            }
        } else {
            if oy < 0 {
                Some(
                    (
                        Collision::Top,
                        V2 { x: (b1.half.x + ox) as i64, y: (b1.half.y + oy) as i64 },
                    ),
                )
            } else {
                Some(
                    (
                        Collision::Bottom,
                        V2 { x: (b1.half.x - ox) as i64, y: (b1.half.y - oy) as i64 },
                    ),
                )
            }
        }
    }
}

/// Inclusive AABB overlap test.
pub fn intersects(a: &Aabb, b: &Aabb) -> (r: bool)
    requires
        aabb_wf(*a),
        aabb_wf(*b),
    ensures
        r == intersects_spec(*a, *b),
{
    let dx: i64 = abs_val(a.center.x - b.center.x);
    let dy: i64 = abs_val(a.center.y - b.center.y);
    dx <= a.half.x + b.half.x && dy <= a.half.y + b.half.y
}

/// Collision test and resolution data for a moving box `body1` against a
/// static box `body2`: `None` when the boxes do not intersect, otherwise the
/// side of `body1` in contact and the pushout vector that separates the
/// boxes along the resolved axis.
pub fn collide(body1: &Aabb, body2: &Aabb) -> (r: Option<(Collision, V2)>)
    requires
        aabb_wf(*body1),
        aabb_wf(*body2),
    ensures
        r == collide_spec(*body1, *body2),
        r is None <==> !intersects_spec(*body1, *body2),
{
    if !intersects(body1, body2) {
        return None;
    }
    let closest_x: i64 = clamp_val(
        body1.center.x,
        body2.center.x - body2.half.x,
        body2.center.x + body2.half.x,
    );
    let closest_y: i64 = clamp_val(
        body1.center.y,
        body2.center.y - body2.half.y,
        body2.center.y + body2.half.y,
    );
    let ox: i64 = body1.center.x - closest_x;
    let oy: i64 = body1.center.y - closest_y;
    if abs_val(ox) + body1.half.y > abs_val(oy) + body1.half.x {
        if ox > 0 {
            Some((Collision::Left, V2 { x: body1.half.x - ox, y: body1.half.y - oy }))
        } else {
            Some((Collision::Right, V2 { x: body1.half.x + ox, y: body1.half.y + oy }))
        }
    } else {
        if oy < 0 {
            Some((Collision::Top, V2 { x: body1.half.x + ox, y: body1.half.y + oy }))
        } else {
            Some((Collision::Bottom, V2 { x: body1.half.x - ox, y: body1.half.y - oy }))
        }
    }
}

/// The mover's center after the resolver applies the pushout for `side`:
/// the position correction of the resolution step, per the sign rule
/// (Top subtracts and Bottom adds `clip.y`; Left adds and Right subtracts
/// `clip.x`).
pub open spec fn corrected_center(c: V2, side: Collision, clip: V2) -> V2 {
    match side {
        Collision::Top => V2 { x: c.x, y: (c.y - clip.y) as i64 },
        Collision::Bottom => V2 { x: c.x, y: (c.y + clip.y) as i64 },
        Collision::Left => V2 { x: (c.x + clip.x) as i64, y: c.y },
        Collision::Right => V2 { x: (c.x - clip.x) as i64, y: c.y },
    }
}

/// For an intersecting pair the offset magnitudes are bounded by the
/// mover's half-size on each axis.
proof fn lemma_off_bounds(b1: Aabb, b2: Aabb)
    requires
        0 <= b1.half.x,
        0 <= b1.half.y,
        0 <= b2.half.x,
        0 <= b2.half.y,
        intersects_spec(b1, b2),
    ensures
        abs_spec(off_x_spec(b1, b2)) <= b1.half.x,
        abs_spec(off_y_spec(b1, b2)) <= b1.half.y,
{
}

/// For every intersecting pair whose offset along the resolved axis is
/// nonzero (the mover's center lies outside the static box's extent on that
/// axis), applying the pushout per the sign rule makes the boxes exactly
/// tangent: the mover's edge on the contact side coincides with the facing
/// edge of the static box.
pub proof fn lemma_collide_tangent(b1: Aabb, b2: Aabb)
    requires
        aabb_wf(b1),
        aabb_wf(b2),
        intersects_spec(b1, b2),
        horizontal_spec(b1, b2) ==> off_x_spec(b1, b2) != 0,
        !horizontal_spec(b1, b2) ==> off_y_spec(b1, b2) != 0,
    ensures
        collide_spec(b1, b2) is Some,
        ({
            let (side, clip) = collide_spec(b1, b2).unwrap();
            let cc = corrected_center(b1.center, side, clip);
            match side {
                Collision::Left => cc.x - b1.half.x == b2.center.x + b2.half.x,
                Collision::Right => cc.x + b1.half.x == b2.center.x - b2.half.x,
                Collision::Top => cc.y + b1.half.y == b2.center.y - b2.half.y,
                Collision::Bottom => cc.y - b1.half.y == b2.center.y + b2.half.y,
            }
        }),
{
    lemma_off_bounds(b1, b2);
}

/// Horizontal mirroring of a box: the center's x coordinate is negated, the
/// half-size kept.
pub open spec fn mirror_x(b: Aabb) -> Aabb {
    Aabb { center: V2 { x: (-b.center.x) as i64, y: b.center.y }, half: b.half }
}

/// Horizontal mirroring of a side: Left and Right swap, Top and Bottom stay.
pub open spec fn mirror_side(s: Collision) -> Collision {
    match s {
        Collision::Left => Collision::Right,
        Collision::Right => Collision::Left,
        Collision::Top => Collision::Top,
        Collision::Bottom => Collision::Bottom,
    }
}

/// Side classification is symmetric under horizontal mirroring: mirroring
/// both boxes' x coordinates swaps Left and Right, leaves Top and Bottom
/// unchanged, and keeps the pushout component along the resolved axis.  A
/// horizontal contact with a zero x offset (the mover's center inside the
/// static box's x extent) is excluded: there both orientations classify as
/// Right.
pub proof fn lemma_collide_mirror(b1: Aabb, b2: Aabb)
    requires
        aabb_wf(b1),
        aabb_wf(b2),
        intersects_spec(b1, b2) && horizontal_spec(b1, b2) ==> off_x_spec(b1, b2) != 0,
    ensures
        collide_spec(mirror_x(b1), mirror_x(b2)) is Some <==> collide_spec(b1, b2) is Some,
        collide_spec(b1, b2) is Some ==> ({
            let (side, clip) = collide_spec(b1, b2).unwrap();
            let (mside, mclip) = collide_spec(mirror_x(b1), mirror_x(b2)).unwrap();
            &&& mside == mirror_side(side)
            &&& (side is Left || side is Right) ==> mclip.x == clip.x
            &&& (side is Top || side is Bottom) ==> mclip.y == clip.y
        }),
{
    let m1 = mirror_x(b1);
    let m2 = mirror_x(b2);
    assert(off_x_spec(m1, m2) == -off_x_spec(b1, b2));
    assert(off_y_spec(m1, m2) == off_y_spec(b1, b2));
}

/// Resolution is positionally idempotent: after one resolution step with a
/// nonzero offset along the resolved axis, the corrected mover still touches
/// the static box (touching counts as intersecting), and the pushout a
/// second resolution computes is zero along its resolved axis, so applying
/// it moves nothing.
pub proof fn lemma_resolution_fixpoint(b1: Aabb, b2: Aabb)
    requires
        aabb_wf(b1),
        aabb_wf(b2),
        intersects_spec(b1, b2),
        horizontal_spec(b1, b2) ==> off_x_spec(b1, b2) != 0,
        !horizontal_spec(b1, b2) ==> off_y_spec(b1, b2) != 0,
    ensures
        collide_spec(b1, b2) is Some,
        ({
            let (side, clip) = collide_spec(b1, b2).unwrap();
            let bt = Aabb { center: corrected_center(b1.center, side, clip), half: b1.half };
            &&& collide_spec(bt, b2) is Some
            &&& ({
                let (side2, clip2) = collide_spec(bt, b2).unwrap();
                corrected_center(bt.center, side2, clip2) == bt.center
            })
        }),
{
    lemma_off_bounds(b1, b2);
    let (side, clip) = collide_spec(b1, b2).unwrap();
    let bt = Aabb { center: corrected_center(b1.center, side, clip), half: b1.half };
    assert(intersects_spec(bt, b2));
    lemma_off_bounds(bt, b2);
}

} // verus!
