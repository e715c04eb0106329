//! Paddle steering, ball motion, and serving a fresh ball.

use vstd::prelude::*;
use crate::{Aabb, Vec2i};
use crate::{
    BALL_HALF_DIAMETER, BALL_SPEED, BALL_START_X, BALL_START_Y, BOTTOM_WALL, COORD_LIMIT,
    PADDLE_HALF_HEIGHT, PADDLE_PADDING, PADDLE_SPEED, TOP_WALL, WALL_HALF_THICKNESS,
};

verus! {

/// A velocity in subpixels per tick (numerically, pixels per second).
#[derive(Clone, Copy, PartialEq, Eq, Structural, Debug)]
pub struct Velocity {
    pub x: i64,
    pub y: i64,
}

/// The lowest center a paddle may reach: resting on the bottom wall with its
/// padding.
pub const PADDLE_BOTTOM_BOUND: i64 = BOTTOM_WALL + WALL_HALF_THICKNESS + PADDLE_HALF_HEIGHT
    + PADDLE_PADDING;

/// The highest center a paddle may reach: resting under the top wall with its
/// padding.
pub const PADDLE_TOP_BOUND: i64 = TOP_WALL - WALL_HALF_THICKNESS - PADDLE_HALF_HEIGHT
    - PADDLE_PADDING;

/// `n` forced into `[lo, hi]`.
pub open spec fn spec_clamp(n: int, lo: int, hi: int) -> int {
    if n < lo {
        lo
    } else if n > hi {
        hi
    } else {
        n
    }
}

/// The steering direction read from the two keys of one paddle: up adds one,
/// down subtracts one.
pub open spec fn spec_direction(up: bool, down: bool) -> int {
    (if up { 1int } else { 0int }) - (if down { 1int } else { 0int })
}

/// Turns the pressed state of the two steering keys into a direction.
pub fn direction_mutate(dir: &mut i64, up_pressed: bool, down_pressed: bool)
    requires
        -COORD_LIMIT <= *dir <= COORD_LIMIT,
    ensures
        *final(dir) == *old(dir) + spec_direction(up_pressed, down_pressed),
{
    if up_pressed {
        *dir += 1;
    }
    if down_pressed {
        *dir -= 1;
    }
}

/// One tick of paddle steering: move the paddle center by the steering
/// direction times the paddle speed, then keep it inside the arena.
pub fn move_paddle(paddle_y: &mut i64, up_pressed: bool, down_pressed: bool)
    requires
        -COORD_LIMIT <= *paddle_y <= COORD_LIMIT,
    ensures
        *final(paddle_y) == spec_clamp(
            *old(paddle_y) + spec_direction(up_pressed, down_pressed) * PADDLE_SPEED,
            PADDLE_BOTTOM_BOUND as int,
            PADDLE_TOP_BOUND as int,
        ),
{
    let mut direction: i64 = 0;
    direction_mutate(&mut direction, up_pressed, down_pressed);

    let new_paddle_position: i64 = *paddle_y + direction * PADDLE_SPEED;

    if new_paddle_position < PADDLE_BOTTOM_BOUND {
        *paddle_y = PADDLE_BOTTOM_BOUND;
    } else if new_paddle_position > PADDLE_TOP_BOUND {
        *paddle_y = PADDLE_TOP_BOUND;
    } else {
        *paddle_y = new_paddle_position;
    }
}

/// One tick of ball motion: the position advances by the velocity.
pub fn apply_velocity(position: &mut Vec2i, velocity: &Velocity)
    requires
        old(position).bounded(),
        -COORD_LIMIT <= velocity.x <= COORD_LIMIT,
        -COORD_LIMIT <= velocity.y <= COORD_LIMIT,
    ensures
        final(position).x == old(position).x + velocity.x,
        final(position).y == old(position).y + velocity.y,
{
    position.x += velocity.x;
    position.y += velocity.y;
}

/// The ball: its center and its velocity.  Its extent is the fixed
/// `BALL_DIAMETER` square.
#[derive(Clone, Copy, PartialEq, Eq, Structural, Debug)]
pub struct Ball {
    pub center: Vec2i,
    pub velocity: Velocity,
}

impl Ball {
    /// The ball's box for collision tests.
    pub open spec fn spec_aabb(self) -> Aabb {
        Aabb {
            center: self.center,
            half: Vec2i { x: BALL_HALF_DIAMETER, y: BALL_HALF_DIAMETER },
        }
    }

    /// The ball's box for collision tests.
    pub fn aabb(&self) -> (b: Aabb)
        ensures
            b == self.spec_aabb(),
    {
        Aabb {
            center: self.center,
            half: Vec2i { x: BALL_HALF_DIAMETER, y: BALL_HALF_DIAMETER },
        }
    }
}

/// Serve directions are drawn componentwise from
/// `[-DIR_HALF_RANGE, DIR_HALF_RANGE)`; only the direction of the drawn pair
/// matters, its magnitude is scaled away.
pub const DIR_HALF_RANGE: i64 = 500_000;

/// The first ball's serve direction: down and to the right at forty-five
/// degrees.
pub const INITIAL_DIR_X: i64 = 500_000;
pub const INITIAL_DIR_Y: i64 = -500_000;

/// `r` is the integer square root of `n`.
pub open spec fn is_isqrt(n: int, r: int) -> bool {
    &&& 0 <= r
    &&& r * r <= n
    &&& n < (r + 1) * (r + 1)
}

/// The integer square root, by binary search.
pub fn isqrt64(n: u64) -> (r: u64)
    ensures
        is_isqrt(n as int, r as int),
{
    let mut lo: u64 = 0;
    let mut hi: u64 = 0x1_0000_0000;
    assert((hi as int) * (hi as int) > n as int) by (nonlinear_arith)
        requires
            hi == 0x1_0000_0000,
            n <= u64::MAX,
    ;
    while lo + 1 < hi
        invariant
            lo < hi <= 0x1_0000_0000,
            (lo as int) * (lo as int) <= n as int,
            n < (hi as int) * (hi as int),
        decreases hi - lo,
    {
        let mid: u64 = lo + (hi - lo) / 2;
        assert(lo < mid < hi);
        assert((mid as int) * (mid as int) <= (0xFFFF_FFFFu64 as int) * (0xFFFF_FFFFu64 as int))
            by (nonlinear_arith)
            requires
                mid <= 0xFFFF_FFFFu64,
        ;
        if mid * mid <= n {
            lo = mid;
        } else {
            hi = mid;
        }
    }
    assert((lo + 1) as int * ((lo + 1) as int) >= (hi as int) * (hi as int)) by (nonlinear_arith)
        requires
            lo + 1 >= hi,
            lo < hi,
    ;
    lo
}

/// `d` scaled by `target / len`, keeping `d`'s sign, with the division
/// rounding the magnitude down.
pub open spec fn spec_scaled_component(d: int, target: int, len: int) -> int {
    if d >= 0 {
        (d * target) / len
    } else {
        -((-d * target) / len)
    }
}

/// The velocity of a serve with direction `(dx, dy)`, whose length `len` is
/// the integer square root of `dx * dx + dy * dy`: the direction scaled to
/// `BALL_SPEED`.
pub open spec fn spec_serve_velocity(dx: int, dy: int, len: int) -> Velocity {
    Velocity {
        x: spec_scaled_component(dx, BALL_SPEED as int, len) as i64,
        y: spec_scaled_component(dy, BALL_SPEED as int, len) as i64,
    }
}

/// `v` is a serve: a vector of a direction drawn from the serve range, scaled
/// to the ball speed.
pub open spec fn is_serve_velocity(v: Velocity) -> bool {
    exists|dx: int, dy: int, len: int|
        {
            &&& -DIR_HALF_RANGE <= dx <= DIR_HALF_RANGE
            &&& -DIR_HALF_RANGE <= dy <= DIR_HALF_RANGE
            &&& !(dx == 0 && dy == 0)
            &&& is_isqrt(dx * dx + dy * dy, len)
            &&& v == spec_serve_velocity(dx, dy, len)
        }
}

/// Scales the direction `(dx, dy)` to a velocity of magnitude `BALL_SPEED`,
/// rounding each component's magnitude down.
pub fn scale_to_speed(dx: i64, dy: i64) -> (v: Velocity)
    requires
        -DIR_HALF_RANGE <= dx <= DIR_HALF_RANGE,
        -DIR_HALF_RANGE <= dy <= DIR_HALF_RANGE,
        !(dx == 0 && dy == 0),
    ensures
        exists|len: int|
            is_isqrt(dx * dx + dy * dy, len) && v == spec_serve_velocity(
                dx as int,
                dy as int,
                len,
            ),
        -BALL_SPEED <= v.x <= BALL_SPEED,
        -BALL_SPEED <= v.y <= BALL_SPEED,
{
    let mx: u64 = if dx < 0 {
        (-dx) as u64
    } else {
        dx as u64
    };
    let my: u64 = if dy < 0 {
        (-dy) as u64
    } else {
        dy as u64
    };
    assert(mx <= 500_000 && my <= 500_000);
    assert(mx >= 1 || my >= 1);
    assert(mx as int * (mx as int) + my as int * (my as int) <= u64::MAX) by (nonlinear_arith)
        requires
            mx <= 500_000,
            my <= 500_000,
    ;
    assert(mx as int * (mx as int) + my as int * (my as int) >= 1) by (nonlinear_arith)
        requires
            mx >= 1 || my >= 1,
    ;
    let sq: u64 = mx * mx + my * my;
    let len: u64 = isqrt64(sq);

    proof {
        lemma_isqrt_at_least(sq as int, len as int, mx as int);
        lemma_isqrt_at_least(sq as int, len as int, my as int);
        assert(len >= 1) by (nonlinear_arith)
            requires
                is_isqrt(sq as int, len as int),
                sq >= 1,
        ;
    }

    let speed: u64 = BALL_SPEED as u64;
    assert(speed == 400);
    assert(mx as int * speed as int <= 200_000_000 && my as int * speed as int <= 200_000_000)
        by (nonlinear_arith)
        requires
            mx <= 500_000,
            my <= 500_000,
            speed == 400,
    ;
    let qx: u64 = mx * speed / len;
    let qy: u64 = my * speed / len;
    proof {
        lemma_scaled_bounded(mx as int, speed as int, len as int);
        lemma_scaled_bounded(my as int, speed as int, len as int);
    }

    let vx: i64 = if dx < 0 {
        -(qx as i64)
    } else {
        qx as i64
    };
    let vy: i64 = if dy < 0 {
        -(qy as i64)
    } else {
        qy as i64
    };
    proof {
        assert(mx as int * mx as int == dx as int * dx as int) by (nonlinear_arith)
            requires
                mx as int == dx as int || mx as int == -(dx as int),
        ;
        assert(my as int * my as int == dy as int * dy as int) by (nonlinear_arith)
            requires
                my as int == dy as int || my as int == -(dy as int),
        ;
        assert(is_isqrt(dx as int * dx as int + dy as int * dy as int, len as int));
        assert(vx as int == spec_scaled_component(dx as int, BALL_SPEED as int, len as int));
        assert(vy as int == spec_scaled_component(dy as int, BALL_SPEED as int, len as int));
        assert(Velocity { x: vx, y: vy } == spec_serve_velocity(dx as int, dy as int, len as int));
    }
    Velocity { x: vx, y: vy }
}

/// Relies on rand's `Uniform` integer sampler: a value drawn through
/// `Distribution::sample` from `Uniform::from(lo..hi)` lies in `[lo, hi)`;
/// the constructor panics when `lo >= hi`, which the caller rules out.
#[verifier::external_body]
fn sample_half_open(lo: i64, hi: i64) -> (r: i64)
    requires
        lo < hi,
    ensures
        lo <= r < hi,
{
    rand::distributions::Distribution::sample(
        &rand::distributions::Uniform::from(lo..hi),
        &mut rand::thread_rng(),
    )
}

/// Serves a fresh ball: it starts at the fixed starting point with a randomly
/// drawn direction, scaled to the ball speed.  A draw of exactly zero on both
/// axes, which no direction can be made of, serves like the very first ball.
pub fn new_ball() -> (b: Ball)
    ensures
        b.center.x == BALL_START_X,
        b.center.y == BALL_START_Y,
        is_serve_velocity(b.velocity),
        -BALL_SPEED <= b.velocity.x <= BALL_SPEED,
        -BALL_SPEED <= b.velocity.y <= BALL_SPEED,
{
    let dx: i64 = sample_half_open(-DIR_HALF_RANGE, DIR_HALF_RANGE);
    let dy: i64 = sample_half_open(-DIR_HALF_RANGE, DIR_HALF_RANGE);
    let (sx, sy): (i64, i64) = if dx == 0 && dy == 0 {
        (INITIAL_DIR_X, INITIAL_DIR_Y)
    } else {
        (dx, dy)
    };
    let velocity = scale_to_speed(sx, sy);
    Ball { center: Vec2i { x: BALL_START_X, y: BALL_START_Y }, velocity }
}

/// The very first ball's velocity: the initial serve direction scaled to the
/// ball speed.
pub fn initial_ball_velocity() -> (v: Velocity)
    ensures
        exists|len: int|
            is_isqrt(
                INITIAL_DIR_X * INITIAL_DIR_X + INITIAL_DIR_Y * INITIAL_DIR_Y,
                len,
            ) && v == spec_serve_velocity(INITIAL_DIR_X as int, INITIAL_DIR_Y as int, len),
        is_serve_velocity(v),
{
    scale_to_speed(INITIAL_DIR_X, INITIAL_DIR_Y)
}

/// The square root of a sum of squares is at least each side's magnitude.
proof fn lemma_isqrt_at_least(n: int, r: int, m: int)
    requires
        is_isqrt(n, r),
        0 <= m,
        m * m <= n,
    ensures
        m <= r,
{
    assert(m <= r) by (nonlinear_arith)
        requires
            0 <= r,
            0 <= m,
            m * m <= n,
            n < (r + 1) * (r + 1),
    ;
}

/// Scaling a magnitude by `target / len` with `len` at least the magnitude
/// gives at most `target`.
proof fn lemma_scaled_bounded(m: int, target: int, len: int)
    requires
        0 <= m <= len,
        0 < len,
        0 <= target,
    ensures
        0 <= (m * target) / len <= target,
{
    assert(m * target <= len * target) by (nonlinear_arith)
        requires
            0 <= m <= len,
            0 <= target,
    ;
    assert((m * target) / len <= (len * target) / len) by (nonlinear_arith)
        requires
            0 < len,
            m * target <= len * target,
            0 <= m * target,
    ;
    assert((len * target) / len == target) by (nonlinear_arith)
        requires
            0 < len,
    ;
    assert(0 <= (m * target) / len) by (nonlinear_arith)
        requires
            0 < len,
            0 <= m * target,
    ;
}

} // verus!

