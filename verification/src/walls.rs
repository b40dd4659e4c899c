//! The four fixed boundary walls and their geometry.

use vstd::prelude::*;

verus! {

use crate::constants::BOTTOM_WALL;
use crate::constants::HORIZONTAL_WALL_HALF_WIDTH;
use crate::constants::HORIZONTAL_WALL_WIDTH;
use crate::constants::LEFT_WALL;
use crate::constants::RIGHT_WALL;
use crate::constants::TOP_WALL;
use crate::constants::VERTICAL_WALL_HALF_HEIGHT;
use crate::constants::VERTICAL_WALL_HEIGHT;
use crate::constants::WALL_HALF_THICKNESS;
use crate::constants::WALL_THICKNESS;
use crate::geometry::Aabb;
use crate::geometry::Vec2;

/// One of the four static boundary walls around the playfield.
#[derive(Clone, Copy, PartialEq, Eq, Structural, Debug)]
pub enum WallLocation {
    Left,
    Right,
    Bottom,
    Top,
}

impl WallLocation {
    /// The wall's center.
    pub open spec fn position_spec(self) -> Vec2 {
        match self {
            WallLocation::Left => Vec2 { x: LEFT_WALL, y: 0 },
            WallLocation::Right => Vec2 { x: RIGHT_WALL, y: 0 },
            WallLocation::Bottom => Vec2 { x: 0, y: BOTTOM_WALL },
            WallLocation::Top => Vec2 { x: 0, y: TOP_WALL },
        }
    }

    /// The wall's full size: the vertical walls span the playfield's height
    /// plus one thickness, the horizontal walls its width plus one
    /// thickness, so the walls overlap in the corners.
    pub open spec fn size_spec(self) -> Vec2 {
        match self {
            WallLocation::Left | WallLocation::Right => Vec2 {
                x: WALL_THICKNESS,
                y: VERTICAL_WALL_HEIGHT,
            },
            WallLocation::Bottom | WallLocation::Top => Vec2 {
                x: HORIZONTAL_WALL_WIDTH,
                y: WALL_THICKNESS,
            },
        }
    }

    /// The wall's bounding box: centered on its position, with half of its
    /// size as half-extents.
    pub open spec fn aabb_spec(self) -> Aabb {
        match self {
            WallLocation::Left | WallLocation::Right => Aabb {
                center: self.position_spec(),
                half: Vec2 { x: WALL_HALF_THICKNESS, y: VERTICAL_WALL_HALF_HEIGHT },
            },
            WallLocation::Bottom | WallLocation::Top => Aabb {
                center: self.position_spec(),
                half: Vec2 { x: HORIZONTAL_WALL_HALF_WIDTH, y: WALL_HALF_THICKNESS },
            },
        }
    }

    /// The wall's center.
    pub fn position(&self) -> (r: Vec2)
        ensures
            r == self.position_spec(),
    {
        match self {
            WallLocation::Left => Vec2 { x: LEFT_WALL, y: 0 },
            WallLocation::Right => Vec2 { x: RIGHT_WALL, y: 0 },
            WallLocation::Bottom => Vec2 { x: 0, y: BOTTOM_WALL },
            WallLocation::Top => Vec2 { x: 0, y: TOP_WALL },
        }
    }

    /// The wall's full size.
    pub fn size(&self) -> (r: Vec2)
        ensures
            r == self.size_spec(),
    {
        match self {
            WallLocation::Left | WallLocation::Right => Vec2 {
                x: WALL_THICKNESS,
                y: VERTICAL_WALL_HEIGHT,
            },
            WallLocation::Bottom | WallLocation::Top => Vec2 {
                x: HORIZONTAL_WALL_WIDTH,
                y: WALL_THICKNESS,
            },
        }
    }

    /// The wall's bounding box.
    pub fn aabb(&self) -> (r: Aabb)
        ensures
            r == self.aabb_spec(),
    {
        let half = match self {
            WallLocation::Left | WallLocation::Right => Vec2 {
                x: WALL_HALF_THICKNESS,
                y: VERTICAL_WALL_HALF_HEIGHT,
            },
            WallLocation::Bottom | WallLocation::Top => Vec2 {
                x: HORIZONTAL_WALL_HALF_WIDTH,
                y: WALL_HALF_THICKNESS,
            },
        };
        Aabb { center: self.position(), half }
    }
}

} // verus!
