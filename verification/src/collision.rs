//! Walls, the axis-aligned overlap test, and the per-tick collision pass.

use vstd::prelude::*;
use crate::movement::{is_serve_velocity, new_ball, Ball, Velocity};
use crate::scoreboard::Scoreboard;
use crate::{Aabb, Vec2i};
use crate::{
    BALL_SPEED, BALL_START_X, BALL_START_Y, BOTTOM_WALL, COORD_LIMIT, LEFT_WALL, RIGHT_WALL,
    TOP_WALL, WALL_HALF_THICKNESS, WALL_THICKNESS,
};

verus! {

/// The side of the struck box `b` that the moving box `a` hit, or `Inside`
/// when `a` overlaps `b` without jutting out past it on a single axis.
#[derive(Clone, Copy, PartialEq, Eq, Structural, Debug)]
pub enum Collision {
    Left,
    Right,
    Top,
    Bottom,
    Inside,
}

/// A box the ball can strike: one of the four walls or a paddle.
#[derive(Clone, Copy, PartialEq, Eq, Structural, Debug)]
pub struct Collider {
    pub aabb: Aabb,
    pub is_paddle: bool,
}

/// `a` and `b` overlap with positive area.
pub open spec fn spec_overlap(a: Aabb, b: Aabb) -> bool {
    &&& a.min_x() < b.max_x()
    &&& a.max_x() > b.min_x()
    &&& a.min_y() < b.max_y()
    &&& a.max_y() > b.min_y()
}

/// The horizontal side of `b` that `a` sticks out of, with the penetration
/// depth along that axis, where `a` covers `b`'s edge on the x axis;
/// `None` when `a` neither covers `b`'s left nor right edge.
pub open spec fn spec_x_hit(a: Aabb, b: Aabb) -> Option<(Collision, int)> {
    if a.min_x() < b.min_x() && a.max_x() > b.min_x() && a.max_x() < b.max_x() {
        Some((Collision::Left, a.max_x() - b.min_x()))
    } else if a.min_x() > b.min_x() && a.min_x() < b.max_x() && a.max_x() > b.max_x() {
        Some((Collision::Right, b.max_x() - a.min_x()))
    } else {
        None
    }
}

/// The vertical counterpart of `spec_x_hit`.
pub open spec fn spec_y_hit(a: Aabb, b: Aabb) -> Option<(Collision, int)> {
    if a.min_y() < b.min_y() && a.max_y() > b.min_y() && a.max_y() < b.max_y() {
        Some((Collision::Bottom, a.max_y() - b.min_y()))
    } else if a.min_y() > b.min_y() && a.min_y() < b.max_y() && a.max_y() > b.max_y() {
        Some((Collision::Top, b.max_y() - a.min_y()))
    } else {
        None
    }
}

/// Whether and on which of its sides `b` is struck by `a`: `None` without
/// overlap; otherwise the side whose penetration is shallowest, the x side
/// winning ties, and `Inside` when no single side sticks out.
pub open spec fn spec_collide(a: Aabb, b: Aabb) -> Option<Collision> {
    if spec_overlap(a, b) {
        match (spec_x_hit(a, b), spec_y_hit(a, b)) {
            (Some(xh), Some(yh)) => if yh.1 < xh.1 {
                Some(yh.0)
            } else {
                Some(xh.0)
            },
            (Some(xh), None) => Some(xh.0),
            (None, Some(yh)) => Some(yh.0),
            (None, None) => Some(Collision::Inside),
        }
    } else {
        None
    }
}

/// Axis-aligned bounding box collision with side detection: which side of `b`
/// the box `a` hit, if they overlap.
pub fn collide(a: &Aabb, b: &Aabb) -> (r: Option<Collision>)
    requires
        a.wf(),
        b.wf(),
    ensures
        r == spec_collide(*a, *b),
{
    let a_min_x: i64 = a.center.x - a.half.x;
    let a_max_x: i64 = a.center.x + a.half.x;
    let a_min_y: i64 = a.center.y - a.half.y;
    let a_max_y: i64 = a.center.y + a.half.y;

    let b_min_x: i64 = b.center.x - b.half.x;
    let b_max_x: i64 = b.center.x + b.half.x;
    let b_min_y: i64 = b.center.y - b.half.y;
    let b_max_y: i64 = b.center.y + b.half.y;

    // check to see if the two rectangles are intersecting
    if a_min_x < b_max_x && a_max_x > b_min_x && a_min_y < b_max_y && a_max_y > b_min_y {
        // check to see if we hit on the left or right side
        let x_hit: Option<(Collision, i64)> = if a_min_x < b_min_x && a_max_x > b_min_x
            && a_max_x < b_max_x {
            Some((Collision::Left, a_max_x - b_min_x))
        } else if a_min_x > b_min_x && a_min_x < b_max_x && a_max_x > b_max_x {
            Some((Collision::Right, b_max_x - a_min_x))
        } else {
            None
        };

        // check to see if we hit on the top or bottom side
        let y_hit: Option<(Collision, i64)> = if a_min_y < b_min_y && a_max_y > b_min_y
            && a_max_y < b_max_y {
            Some((Collision::Bottom, a_max_y - b_min_y))
        } else if a_min_y > b_min_y && a_min_y < b_max_y && a_max_y > b_max_y {
            Some((Collision::Top, b_max_y - a_min_y))
        } else {
            None
        };

        // if we had an "x" and a "y" collision, pick the "primary" side using
        // the shallower penetration
        match (x_hit, y_hit) {
            (Some((xc, xd)), Some((yc, yd))) => if yd < xd {
                Some(yc)
            } else {
                Some(xc)
            },
            (Some((xc, _)), None) => Some(xc),
            (None, Some((yc, _))) => Some(yc),
            (None, None) => Some(Collision::Inside),
        }
    } else {
        None
    }
}

/// The running outcome of one collision pass: the ball's velocity, the two
/// score counters, whether the ball was lost to a side wall, and how many
/// collision events were sent.
pub ghost struct PassState {
    pub velocity: Velocity,
    pub left: int,
    pub right: int,
    pub despawn: bool,
    pub events: int,
}

/// The starting state of a collision pass.
pub open spec fn pass_init(velocity: Velocity, board: Scoreboard) -> PassState {
    PassState {
        velocity,
        left: board.left as int,
        right: board.right as int,
        despawn: false,
        events: 0,
    }
}

/// How one collider changes the state of a collision pass.  A hit sends one
/// event.  A hit on a paddle's side reflects the velocity component pointing
/// at the paddle; the top or bottom of anything reflects the vertical
/// component pointing at it; the left or right face of a wall loses the ball
/// and the side across the arena from that wall scores; a hit inside changes
/// nothing further.
pub open spec fn spec_hit_one(ball: Aabb, s: PassState, c: Collider) -> PassState {
    match spec_collide(ball, c.aabb) {
        None => s,
        Some(col) => {
            let e = s.events + 1;
            match col {
                Collision::Left => if c.is_paddle {
                    if s.velocity.x > 0 {
                        PassState {
                            velocity: Velocity { x: (-s.velocity.x) as i64, y: s.velocity.y },
                            left: s.left,
                            right: s.right,
                            despawn: s.despawn,
                            events: e,
                        }
                    } else {
                        PassState {
                            velocity: s.velocity,
                            left: s.left,
                            right: s.right,
                            despawn: s.despawn,
                            events: e,
                        }
                    }
                } else {
                    PassState {
                        velocity: s.velocity,
                        left: s.left + 1,
                        right: s.right,
                        despawn: true,
                        events: e,
                    }
                },
                Collision::Right => if c.is_paddle {
                    if s.velocity.x < 0 {
                        PassState {
                            velocity: Velocity { x: (-s.velocity.x) as i64, y: s.velocity.y },
                            left: s.left,
                            right: s.right,
                            despawn: s.despawn,
                            events: e,
                        }
                    } else {
                        PassState {
                            velocity: s.velocity,
                            left: s.left,
                            right: s.right,
                            despawn: s.despawn,
                            events: e,
                        }
                    }
                } else {
                    PassState {
                        velocity: s.velocity,
                        left: s.left,
                        right: s.right + 1,
                        despawn: true,
                        events: e,
                    }
                },
                Collision::Top => if s.velocity.y < 0 {
                    PassState {
                        velocity: Velocity { x: s.velocity.x, y: (-s.velocity.y) as i64 },
                        left: s.left,
                        right: s.right,
                        despawn: s.despawn,
                        events: e,
                    }
                } else {
                    PassState {
                        velocity: s.velocity,
                        left: s.left,
                        right: s.right,
                        despawn: s.despawn,
                        events: e,
                    }
                },
                Collision::Bottom => if s.velocity.y > 0 {
                    PassState {
                        velocity: Velocity { x: s.velocity.x, y: (-s.velocity.y) as i64 },
                        left: s.left,
                        right: s.right,
                        despawn: s.despawn,
                        events: e,
                    }
                } else {
                    PassState {
                        velocity: s.velocity,
                        left: s.left,
                        right: s.right,
                        despawn: s.despawn,
                        events: e,
                    }
                },
                Collision::Inside => PassState {
                    velocity: s.velocity,
                    left: s.left,
                    right: s.right,
                    despawn: s.despawn,
                    events: e,
                },
            }
        }
    }
}

/// The state of a collision pass after the first `n` colliders.
pub open spec fn spec_pass_upto(ball: Aabb, colliders: Seq<Collider>, init: PassState, n: int)
    -> PassState
    decreases n,
{
    if n <= 0 {
        init
    } else {
        spec_hit_one(ball, spec_pass_upto(ball, colliders, init, n - 1), colliders[n - 1])
    }
}

/// The state of a collision pass after every collider, in order.
pub open spec fn spec_collision_pass(ball: Aabb, colliders: Seq<Collider>, init: PassState)
    -> PassState {
    spec_pass_upto(ball, colliders, init, colliders.len() as int)
}

/// A collision pass only ever reflects the ball: after any number of
/// colliders each velocity component keeps its magnitude, only its sign can
/// change.
pub proof fn lemma_pass_preserves_speed(
    ball: Aabb,
    colliders: Seq<Collider>,
    init: PassState,
    n: int,
)
    requires
        -COORD_LIMIT <= init.velocity.x <= COORD_LIMIT,
        -COORD_LIMIT <= init.velocity.y <= COORD_LIMIT,
        0 <= n <= colliders.len(),
    ensures
        ({
            let s = spec_pass_upto(ball, colliders, init, n);
            &&& s.velocity.x == init.velocity.x || s.velocity.x == -init.velocity.x
            &&& s.velocity.y == init.velocity.y || s.velocity.y == -init.velocity.y
        }),
    decreases n,
{
    if n > 0 {
        lemma_pass_preserves_speed(ball, colliders, init, n - 1);
    }
}

/// Over a collision pass the scores and the event count never fall, each
/// grows by at most one per collider, a lost ball stays lost, and a score can
/// only have grown if the ball was lost.
pub proof fn lemma_pass_scores(ball: Aabb, colliders: Seq<Collider>, init: PassState, n: int)
    requires
        0 <= n <= colliders.len(),
    ensures
        ({
            let s = spec_pass_upto(ball, colliders, init, n);
            &&& init.left <= s.left <= init.left + n
            &&& init.right <= s.right <= init.right + n
            &&& init.events <= s.events <= init.events + n
            &&& init.despawn ==> s.despawn
            &&& (s.left > init.left || s.right > init.right) ==> s.despawn
        }),
    decreases n,
{
    if n > 0 {
        lemma_pass_scores(ball, colliders, init, n - 1);
    }
}

/// One tick's collision pass over every collider, in order, against the
/// ball's box at its current position.  Each hit sends one collision event
/// (the returned count); paddle sides and wall tops and bottoms reflect the
/// velocity component moving into them; a left or right wall takes the ball
/// and scores for the opposite side, and a fresh ball is served in its place.
pub fn check_for_collisions(ball: &mut Ball, colliders: &Vec<Collider>, board: &mut Scoreboard)
    -> (events: usize)
    requires
        old(ball).center.bounded(),
        -COORD_LIMIT <= old(ball).velocity.x <= COORD_LIMIT,
        -COORD_LIMIT <= old(ball).velocity.y <= COORD_LIMIT,
        forall|i: int| 0 <= i < colliders@.len() ==> (#[trigger] colliders@[i]).aabb.wf(),
        old(board).left + colliders@.len() <= usize::MAX,
        old(board).right + colliders@.len() <= usize::MAX,
    ensures
        ({
            let end = spec_collision_pass(
                old(ball).spec_aabb(),
                colliders@,
                pass_init(old(ball).velocity, *old(board)),
            );
            &&& final(board).left as int == end.left
            &&& final(board).right as int == end.right
            &&& events as int == end.events
            &&& !end.despawn ==> final(ball).center == old(ball).center && final(ball).velocity
                == end.velocity
            &&& end.despawn ==> final(ball).center.x == BALL_START_X && final(ball).center.y
                == BALL_START_Y && is_serve_velocity(final(ball).velocity) && -BALL_SPEED
                <= final(ball).velocity.x <= BALL_SPEED && -BALL_SPEED <= final(ball).velocity.y
                <= BALL_SPEED
        }),
{
    let ghost init = pass_init(ball.velocity, *board);
    let ball_box = ball.aabb();
    let mut vel: Velocity = ball.velocity;
    let mut despawn: bool = false;
    let mut events: usize = 0;
    let mut i: usize = 0;
    while i < colliders.len()
        invariant
            i <= colliders@.len(),
            ball_box == old(ball).spec_aabb(),
            ball_box.wf(),
            init == pass_init(old(ball).velocity, *old(board)),
            forall|k: int| 0 <= k < colliders@.len() ==> (#[trigger] colliders@[k]).aabb.wf(),
            old(board).left + colliders@.len() <= usize::MAX,
            old(board).right + colliders@.len() <= usize::MAX,
            ({
                let s = spec_pass_upto(ball_box, colliders@, init, i as int);
                &&& vel == s.velocity
                &&& board.left as int == s.left
                &&& board.right as int == s.right
                &&& despawn == s.despawn
                &&& events as int == s.events
            }),
            events <= i,
            board.left <= old(board).left + i,
            board.right <= old(board).right + i,
            -COORD_LIMIT <= vel.x <= COORD_LIMIT,
            -COORD_LIMIT <= vel.y <= COORD_LIMIT,
        decreases colliders@.len() - i,
    {
        let c = colliders[i];
        let hit = collide(&ball_box, &c.aabb);
        if let Some(col) = hit {
            // Sends a collision event so that other systems can react to it.
            events = events + 1;

            // Reflect the ball only when its velocity is in the opposite
            // direction of the collision; a side wall takes the ball instead.
            let mut reflect_x = false;
            let mut reflect_y = false;
            match col {
                Collision::Left => {
                    if c.is_paddle {
                        reflect_x = vel.x > 0;
                    } else {
                        despawn = true;
                        board.left = board.left + 1;
                    }
                },
                Collision::Right => {
                    if c.is_paddle {
                        reflect_x = vel.x < 0;
                    } else {
                        despawn = true;
                        board.right = board.right + 1;
                    }
                },
                Collision::Top => {
                    reflect_y = vel.y < 0;
                },
                Collision::Bottom => {
                    reflect_y = vel.y > 0;
                },
                Collision::Inside => {},
            }
            if reflect_x {
                vel.x = -vel.x;
            }
            if reflect_y {
                vel.y = -vel.y;
            }
        }
        i = i + 1;
    }

    if despawn {
        let fresh = new_ball();
        *ball = fresh;
    } else {
        ball.velocity = vel;
    }
    events
}

/// Which side of the arena is this wall located on?
#[derive(Clone, Copy, PartialEq, Eq, Structural, Debug)]
pub enum WallLocation {
    Left,
    Right,
    Bottom,
    Top,
}

/// Tags a score read-out with the side of the arena it counts for.
#[derive(Clone, Copy, PartialEq, Eq, Structural, Debug)]
pub struct Side(pub WallLocation);

impl WallLocation {
    /// The center of this wall.
    pub fn position(&self) -> (p: Vec2i)
        ensures
            *self == WallLocation::Left ==> p == (Vec2i { x: LEFT_WALL, y: 0 }),
            *self == WallLocation::Right ==> p == (Vec2i { x: RIGHT_WALL, y: 0 }),
            *self == WallLocation::Bottom ==> p == (Vec2i { x: 0, y: BOTTOM_WALL }),
            *self == WallLocation::Top ==> p == (Vec2i { x: 0, y: TOP_WALL }),
    {
        match self {
            WallLocation::Left => Vec2i { x: LEFT_WALL, y: 0 },
            WallLocation::Right => Vec2i { x: RIGHT_WALL, y: 0 },
            WallLocation::Bottom => Vec2i { x: 0, y: BOTTOM_WALL },
            WallLocation::Top => Vec2i { x: 0, y: TOP_WALL },
        }
    }

    /// The full extent of this wall: the vertical walls span the arena height
    /// plus a thickness, the horizontal walls the arena width plus a
    /// thickness, so the corners are filled.
    pub fn size(&self) -> (s: Vec2i)
        ensures
            (*self == WallLocation::Left || *self == WallLocation::Right) ==> s == (Vec2i {
                x: WALL_THICKNESS,
                y: (TOP_WALL - BOTTOM_WALL + WALL_THICKNESS) as i64,
            }),
            (*self == WallLocation::Bottom || *self == WallLocation::Top) ==> s == (Vec2i {
                x: (RIGHT_WALL - LEFT_WALL + WALL_THICKNESS) as i64,
                y: WALL_THICKNESS,
            }),
    {
        let arena_height: i64 = TOP_WALL - BOTTOM_WALL;
        let arena_width: i64 = RIGHT_WALL - LEFT_WALL;
        assert(arena_height > 0);
        assert(arena_width > 0);

        match self {
            WallLocation::Left => Vec2i { x: WALL_THICKNESS, y: arena_height + WALL_THICKNESS },
            WallLocation::Right => Vec2i { x: WALL_THICKNESS, y: arena_height + WALL_THICKNESS },
            WallLocation::Bottom => Vec2i { x: arena_width + WALL_THICKNESS, y: WALL_THICKNESS },
            WallLocation::Top => Vec2i { x: arena_width + WALL_THICKNESS, y: WALL_THICKNESS },
        }
    }

    /// The wall's box for collision tests: its center with half its extent.
    pub fn aabb(&self) -> (b: Aabb)
        ensures
            b.center == self.position_spec(),
            2 * b.half.x == self.size_spec().x,
            2 * b.half.y == self.size_spec().y,
            b.wf(),
    {
        let p = self.position();
        let half = match self {
            WallLocation::Left | WallLocation::Right => Vec2i {
                x: WALL_HALF_THICKNESS,
                y: TOP_WALL + WALL_HALF_THICKNESS,
            },
            WallLocation::Bottom | WallLocation::Top => Vec2i {
                x: RIGHT_WALL + WALL_HALF_THICKNESS,
                y: WALL_HALF_THICKNESS,
            },
        };
        Aabb { center: p, half }
    }

    /// The center of this wall (specification view).
    pub open spec fn position_spec(self) -> Vec2i {
        match self {
            WallLocation::Left => Vec2i { x: LEFT_WALL, y: 0 },
            WallLocation::Right => Vec2i { x: RIGHT_WALL, y: 0 },
            WallLocation::Bottom => Vec2i { x: 0, y: BOTTOM_WALL },
            WallLocation::Top => Vec2i { x: 0, y: TOP_WALL },
        }
    }

    /// The full extent of this wall (specification view).
    pub open spec fn size_spec(self) -> Vec2i {
        match self {
            WallLocation::Left | WallLocation::Right => Vec2i {
                x: WALL_THICKNESS,
                y: (TOP_WALL - BOTTOM_WALL + WALL_THICKNESS) as i64,
            },
            WallLocation::Bottom | WallLocation::Top => Vec2i {
                x: (RIGHT_WALL - LEFT_WALL + WALL_THICKNESS) as i64,
                y: WALL_THICKNESS,
            },
        }
    }
}

} // verus!

