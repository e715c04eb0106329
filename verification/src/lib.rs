//! Core rules of a two-paddle paddle-and-ball arcade game: paddle movement,
//! ball motion, axis-aligned collision handling, scoring and ball respawn.
//!
//! All lengths are measured in sixtieths of a pixel and the simulation runs at
//! sixty fixed ticks per second.  With that choice a speed given in pixels per
//! second is numerically the displacement in subpixels per tick, so the whole
//! update is exact integer arithmetic.

pub mod collision;
pub mod movement;
pub mod scoreboard;

use vstd::prelude::*;
use crate::collision::WallLocation;

verus! {

/// Subpixels per pixel; also ticks per second, so that a speed in pixels per
/// second equals a displacement in subpixels per tick.
pub const SUBPIXELS_PER_PIXEL: i64 = 60;

// Arena geometry (subpixels).
pub const LEFT_WALL: i64 = -27000;
pub const RIGHT_WALL: i64 = 27000;
pub const BOTTOM_WALL: i64 = -18000;
pub const TOP_WALL: i64 = 18000;
pub const WALL_THICKNESS: i64 = 600;
pub const WALL_HALF_THICKNESS: i64 = 300;

// Paddles (subpixels; speed in subpixels per tick).
pub const PADDLE_WIDTH: i64 = 1200;
pub const PADDLE_HEIGHT: i64 = 7200;
pub const PADDLE_HALF_WIDTH: i64 = 600;
pub const PADDLE_HALF_HEIGHT: i64 = 3600;
pub const PADDLE_PADDING: i64 = 600;
pub const PADDLE_SPEED: i64 = 500;
pub const GAP_BETWEEN_PADDLE_AND_WALL: i64 = 3600;

// Ball (subpixels; speed in subpixels per tick).
pub const BALL_DIAMETER: i64 = 1800;
pub const BALL_HALF_DIAMETER: i64 = 900;
pub const BALL_SPEED: i64 = 400;
pub const BALL_START_X: i64 = 0;
pub const BALL_START_Y: i64 = -3000;

/// A coordinate bound far beyond the arena; keeping every coordinate inside it
/// lets all the arithmetic of the update stay within `i64`.
pub const COORD_LIMIT: i64 = 1_000_000_000_000;

/// A point or extent in the plane, in subpixels.
#[derive(Clone, Copy, PartialEq, Eq, Structural, Debug)]
pub struct Vec2i {
    pub x: i64,
    pub y: i64,
}

impl Vec2i {
    /// Both coordinates lie within `COORD_LIMIT`.
    pub open spec fn bounded(self) -> bool {
        &&& -COORD_LIMIT <= self.x <= COORD_LIMIT
        &&& -COORD_LIMIT <= self.y <= COORD_LIMIT
    }
}

/// An axis-aligned box, stored as its center and half-extents.
#[derive(Clone, Copy, PartialEq, Eq, Structural, Debug)]
pub struct Aabb {
    pub center: Vec2i,
    pub half: Vec2i,
}

impl Aabb {
    /// Half-extents are non-negative and everything is within `COORD_LIMIT`.
    pub open spec fn wf(self) -> bool {
        &&& self.center.bounded()
        &&& self.half.bounded()
        &&& 0 <= self.half.x
        &&& 0 <= self.half.y
    }

    pub open spec fn min_x(self) -> int {
        self.center.x - self.half.x
    }

    pub open spec fn max_x(self) -> int {
        self.center.x + self.half.x
    }

    pub open spec fn min_y(self) -> int {
        self.center.y - self.half.y
    }

    pub open spec fn max_y(self) -> int {
        self.center.y + self.half.y
    }
}

/// Where a paddle's center starts horizontally: a fixed gap inside its side's
/// wall.
pub fn paddle_start_x(location: &WallLocation) -> (x: i64)
    requires
        *location == WallLocation::Left || *location == WallLocation::Right,
    ensures
        *location == WallLocation::Left ==> x == LEFT_WALL + GAP_BETWEEN_PADDLE_AND_WALL,
        *location == WallLocation::Right ==> x == RIGHT_WALL - GAP_BETWEEN_PADDLE_AND_WALL,
{
    match location {
        WallLocation::Left => LEFT_WALL + GAP_BETWEEN_PADDLE_AND_WALL,
        _ => RIGHT_WALL - GAP_BETWEEN_PADDLE_AND_WALL,
    }
}

} // verus!
