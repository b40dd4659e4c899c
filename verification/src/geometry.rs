//! Collision geometry: axis-aligned boxes, the ball's bounding circle, the
//! circle/box intersection test, and the classification of which side of a
//! box a circle hit.

use vstd::prelude::*;

verus! {

use vstd::math::abs;
use crate::constants::GEOMETRY_LIMIT;
use crate::constants::TRAVEL_LIMIT;

/// A two-dimensional vector of fixed-point coordinates.
#[derive(Clone, Copy, PartialEq, Eq, Structural, Debug)]
pub struct Vec2 {
    pub x: i64,
    pub y: i64,
}

/// A circle given by its center and radius.
#[derive(Clone, Copy, PartialEq, Eq, Structural, Debug)]
pub struct Circle {
    pub center: Vec2,
    pub radius: i64,
}

/// An axis-aligned bounding box given by its center and half-extents.
#[derive(Clone, Copy, PartialEq, Eq, Structural, Debug)]
pub struct Aabb {
    pub center: Vec2,
    pub half: Vec2,
}

/// The side of a box on which an impact happened, seen from the box:
/// `Left` means the ball's center sits to the left of the box.
#[derive(Clone, Copy, PartialEq, Eq, Structural, Debug)]
pub enum Collision {
    Left,
    Right,
    Top,
    Bottom,
}

/// `v` limited to the interval `[lo, hi]`.
pub open spec fn clamp(v: int, lo: int, hi: int) -> int {
    if v < lo {
        lo
    } else if v > hi {
        hi
    } else {
        v
    }
}

/// One coordinate of the point of a box closest to position `b`, for the
/// box axis with center `c` and half-extent `h`.
pub open spec fn closest_coord(b: int, c: int, h: int) -> int {
    clamp(b, c - h, c + h)
}

/// Whether a circle of radius `r` centered at `(bx, by)` touches the box
/// centered at `(cx, cy)` with half-extents `(hx, hy)`: the distance from
/// the circle's center to the box's closest point is at most `r`.
pub open spec fn circle_box_intersect(
    bx: int,
    by: int,
    r: int,
    cx: int,
    cy: int,
    hx: int,
    hy: int,
) -> bool {
    let ox = bx - closest_coord(bx, cx, hx);
    let oy = by - closest_coord(by, cy, hy);
    ox * ox + oy * oy <= r * r
}

/// The impact side for the offset `(ox, oy)` from the box's closest point to
/// the circle's center. The horizontal sides are chosen only when `|ox|`
/// strictly exceeds `|oy|`; on equal magnitudes the vertical test decides,
/// and an offset with `oy == 0` (the center on or inside the box) resolves
/// to `Bottom`.
pub open spec fn side_of_offset(ox: int, oy: int) -> Collision {
    if abs(ox) > abs(oy) {
        if ox < 0 {
            Collision::Left
        } else {
            Collision::Right
        }
    } else if oy > 0 {
        Collision::Top
    } else {
        Collision::Bottom
    }
}

/// The collision verdict for a circle against a box over plain coordinates:
/// the impact side when the two intersect, and nothing otherwise.
pub open spec fn collide_at(
    bx: int,
    by: int,
    r: int,
    cx: int,
    cy: int,
    hx: int,
    hy: int,
) -> Option<Collision> {
    if circle_box_intersect(bx, by, r, cx, cy, hx, hy) {
        Some(
            side_of_offset(bx - closest_coord(bx, cx, hx), by - closest_coord(by, cy, hy)),
        )
    } else {
        None
    }
}

/// The collision verdict for a circle against a box.
pub open spec fn collide_spec(ball: Circle, wall: Aabb) -> Option<Collision> {
    collide_at(
        ball.center.x as int,
        ball.center.y as int,
        ball.radius as int,
        wall.center.x as int,
        wall.center.y as int,
        wall.half.x as int,
        wall.half.y as int,
    )
}

/// Whether a box's coordinates are small enough for the collision test's
/// arithmetic: nonnegative half-extents, everything within
/// `GEOMETRY_LIMIT`.
pub open spec fn box_in_bounds(wall: Aabb) -> bool {
    &&& 0 <= wall.half.x <= GEOMETRY_LIMIT
    &&& 0 <= wall.half.y <= GEOMETRY_LIMIT
    &&& -GEOMETRY_LIMIT <= wall.center.x <= GEOMETRY_LIMIT
    &&& -GEOMETRY_LIMIT <= wall.center.y <= GEOMETRY_LIMIT
}

/// `v` limited to the interval `[lo, hi]`.
pub fn clamp_i64(v: i64, lo: i64, hi: i64) -> (r: i64)
    requires
        lo <= hi,
    ensures
        r == clamp(v as int, lo as int, hi as int),
{
    if v < lo {
        lo
    } else if v > hi {
        hi
    } else {
        v
    }
}

/// Tests the ball's bounding circle against one collider's box and, on an
/// intersection, classifies the side of the box that was hit from the offset
/// between the box's closest point and the circle's center.
pub fn collide_with_side(ball: Circle, wall: Aabb) -> (r: Option<Collision>)
    requires
        0 <= ball.radius <= GEOMETRY_LIMIT,
        -TRAVEL_LIMIT <= ball.center.x <= TRAVEL_LIMIT,
        -TRAVEL_LIMIT <= ball.center.y <= TRAVEL_LIMIT,
        box_in_bounds(wall),
    ensures
        r == collide_spec(ball, wall),
{
    let closest_x = clamp_i64(ball.center.x, wall.center.x - wall.half.x, wall.center.x + wall.half.x);
    let closest_y = clamp_i64(ball.center.y, wall.center.y - wall.half.y, wall.center.y + wall.half.y);
    let ox = ball.center.x - closest_x;
    let oy = ball.center.y - closest_y;
    if ox > ball.radius || ox < -ball.radius || oy > ball.radius || oy < -ball.radius {
        proof {
            assert(ox * ox > ball.radius * ball.radius || oy * oy > ball.radius * ball.radius)
                by (nonlinear_arith)
                requires
                    ox > ball.radius || ox < -ball.radius || oy > ball.radius || oy < -ball.radius,
                    ball.radius >= 0,
            ;
            assert(ox * ox >= 0 && oy * oy >= 0) by (nonlinear_arith);
        }
        None
    } else {
        proof {
            assert(0 <= ox * ox <= 1_000_000_000_000_000_000 && 0 <= oy * oy
                <= 1_000_000_000_000_000_000 && 0 <= ball.radius * ball.radius
                <= 1_000_000_000_000_000_000) by (nonlinear_arith)
                requires
                    -1_000_000_000 <= ox <= 1_000_000_000,
                    -1_000_000_000 <= oy <= 1_000_000_000,
                    0 <= ball.radius <= 1_000_000_000,
            ;
        }
        let dist2 = ox * ox + oy * oy;
        let r2 = ball.radius * ball.radius;
        if dist2 <= r2 {
            let ax = if ox < 0 {
                -ox
            } else {
                ox
            };
            let ay = if oy < 0 {
                -oy
            } else {
                oy
            };
            if ax > ay {
                if ox < 0 {
                    Some(Collision::Left)
                } else {
                    Some(Collision::Right)
                }
            } else if oy > 0 {
                Some(Collision::Top)
            } else {
                Some(Collision::Bottom)
            }
        } else {
            None
        }
    }
}

/// The impact side is determined by the closest-point offset exactly as
/// stated: a horizontal side wins only on a strictly larger `|ox|`, the tie
/// goes to the vertical test, and a vertical offset of zero means `Bottom`.
pub proof fn lemma_side_classification(ox: int, oy: int)
    ensures
        (side_of_offset(ox, oy) == Collision::Left) <==> (abs(ox) > abs(oy) && ox < 0),
        (side_of_offset(ox, oy) == Collision::Right) <==> (abs(ox) > abs(oy) && ox >= 0),
        (side_of_offset(ox, oy) == Collision::Top) <==> (abs(ox) <= abs(oy) && oy > 0),
        (side_of_offset(ox, oy) == Collision::Bottom) <==> (abs(ox) <= abs(oy) && oy <= 0),
{
}

} // verus!
