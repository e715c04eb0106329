//! The per-side score and its read-out.

use vstd::prelude::*;
use crate::collision::{Side, WallLocation};

verus! {

/// This resource tracks the game's score, one counter per side.
#[derive(Clone, Copy, PartialEq, Eq, Structural, Debug)]
pub struct Scoreboard {
    pub left: usize,
    pub right: usize,
}

/// The number shown by a score read-out tagged with `side`: the left counter
/// for the left side, the right counter for the right side, and zero for a
/// read-out tagged with a top or bottom wall.
pub open spec fn spec_displayed_score(board: Scoreboard, side: Side) -> usize {
    match side.0 {
        WallLocation::Left => board.left,
        WallLocation::Right => board.right,
        _ => 0,
    }
}

/// Picks the score that a read-out tagged with `side` shows.
pub fn update_scoreboard(board: &Scoreboard, side: &Side) -> (n: usize)
    ensures
        n == spec_displayed_score(*board, *side),
{
    match side.0 {
        WallLocation::Left => board.left,
        WallLocation::Right => board.right,
        _ => 0,
    }
}

} // verus!
