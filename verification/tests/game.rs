use pong::collision::{
    check_for_collisions, collide, Collider, Collision, Side, WallLocation,
};
use pong::movement::{
    apply_velocity, direction_mutate, initial_ball_velocity, isqrt64, move_paddle, new_ball,
    scale_to_speed, Ball, Velocity,
};
use pong::scoreboard::{update_scoreboard, Scoreboard};
use pong::{paddle_start_x, Aabb, Vec2i};

fn aabb(cx: i64, cy: i64, hx: i64, hy: i64) -> Aabb {
    Aabb { center: Vec2i { x: cx, y: cy }, half: Vec2i { x: hx, y: hy } }
}

fn ball_at(cx: i64, cy: i64, vx: i64, vy: i64) -> Ball {
    Ball { center: Vec2i { x: cx, y: cy }, velocity: Velocity { x: vx, y: vy } }
}

#[test]
fn wall_positions() {
    assert_eq!(WallLocation::Left.position(), Vec2i { x: -27000, y: 0 });
    assert_eq!(WallLocation::Right.position(), Vec2i { x: 27000, y: 0 });
    assert_eq!(WallLocation::Bottom.position(), Vec2i { x: 0, y: -18000 });
    assert_eq!(WallLocation::Top.position(), Vec2i { x: 0, y: 18000 });
}

#[test]
fn wall_sizes() {
    assert_eq!(WallLocation::Left.size(), Vec2i { x: 600, y: 36600 });
    assert_eq!(WallLocation::Right.size(), Vec2i { x: 600, y: 36600 });
    assert_eq!(WallLocation::Bottom.size(), Vec2i { x: 54600, y: 600 });
    assert_eq!(WallLocation::Top.size(), Vec2i { x: 54600, y: 600 });
}

#[test]
fn wall_boxes_are_half_their_size() {
    for loc in [
        WallLocation::Left,
        WallLocation::Right,
        WallLocation::Bottom,
        WallLocation::Top,
    ] {
        let b = loc.aabb();
        assert_eq!(b.center, loc.position());
        assert_eq!(2 * b.half.x, loc.size().x);
        assert_eq!(2 * b.half.y, loc.size().y);
    }
}

#[test]
fn collide_misses_when_apart() {
    let a = aabb(0, 0, 900, 900);
    let b = aabb(5000, 0, 1000, 1000);
    assert!(collide(&a, &b).is_none());
}

#[test]
fn collide_touching_edges_do_not_overlap() {
    // Overlap must have positive area: boxes sharing an edge miss.
    let a = aabb(0, 0, 900, 900);
    let b = aabb(1900, 0, 1000, 1000);
    assert!(collide(&a, &b).is_none());
}

#[test]
fn collide_reports_each_side() {
    let b = aabb(0, 0, 1000, 1000);
    // The moving box juts out past b's left edge only.
    assert!(matches!(collide(&aabb(-1500, 0, 900, 900), &b), Some(Collision::Left)));
    assert!(matches!(collide(&aabb(1500, 0, 900, 900), &b), Some(Collision::Right)));
    assert!(matches!(collide(&aabb(0, 1500, 900, 900), &b), Some(Collision::Top)));
    assert!(matches!(collide(&aabb(0, -1500, 900, 900), &b), Some(Collision::Bottom)));
}

#[test]
fn collide_inside_when_no_side_sticks_out() {
    let b = aabb(0, 0, 5000, 5000);
    assert!(matches!(collide(&aabb(100, -200, 900, 900), &b), Some(Collision::Inside)));
}

#[test]
fn collide_prefers_shallower_penetration() {
    let b = aabb(0, 0, 1000, 1000);
    // x penetration 400, y penetration 300: the vertical side wins.
    let a = aabb(-1500, 1600, 900, 900);
    assert!(matches!(collide(&a, &b), Some(Collision::Top)));
}

#[test]
fn collide_tie_goes_to_the_horizontal_side() {
    let b = aabb(0, 0, 1000, 1000);
    // Both penetrations are 400: the x side is reported.
    let a = aabb(-1500, 1500, 900, 900);
    assert!(matches!(collide(&a, &b), Some(Collision::Left)));
}

#[test]
fn no_colliders_changes_nothing() {
    let mut ball = ball_at(0, 0, 100, 200);
    let mut board = Scoreboard { left: 3, right: 4 };
    let events = check_for_collisions(&mut ball, &vec![], &mut board);
    assert_eq!(events, 0);
    assert_eq!(ball, ball_at(0, 0, 100, 200));
    assert_eq!(board, Scoreboard { left: 3, right: 4 });
}

#[test]
fn top_wall_reflects_a_rising_ball() {
    let mut ball = ball_at(0, 17000, 100, 300);
    let mut board = Scoreboard { left: 0, right: 0 };
    let colliders = vec![Collider { aabb: WallLocation::Top.aabb(), is_paddle: false }];
    let events = check_for_collisions(&mut ball, &colliders, &mut board);
    assert_eq!(events, 1);
    assert_eq!(ball.velocity, Velocity { x: 100, y: -300 });
    assert_eq!(ball.center, Vec2i { x: 0, y: 17000 });
    assert_eq!(board, Scoreboard { left: 0, right: 0 });
}

#[test]
fn bottom_wall_reflects_a_falling_ball() {
    let mut ball = ball_at(0, -17000, -50, -300);
    let mut board = Scoreboard { left: 0, right: 0 };
    let colliders = vec![Collider { aabb: WallLocation::Bottom.aabb(), is_paddle: false }];
    let events = check_for_collisions(&mut ball, &colliders, &mut board);
    assert_eq!(events, 1);
    assert_eq!(ball.velocity, Velocity { x: -50, y: 300 });
}

#[test]
fn top_wall_leaves_a_falling_ball_alone() {
    let mut ball = ball_at(0, 17000, 100, -300);
    let mut board = Scoreboard { left: 0, right: 0 };
    let colliders = vec![Collider { aabb: WallLocation::Top.aabb(), is_paddle: false }];
    let events = check_for_collisions(&mut ball, &colliders, &mut board);
    assert_eq!(events, 1);
    assert_eq!(ball.velocity, Velocity { x: 100, y: -300 });
}

#[test]
fn ball_lost_on_the_left_scores_for_the_right() {
    let mut ball = ball_at(-26000, 0, -300, 50);
    let mut board = Scoreboard { left: 2, right: 5 };
    let colliders = vec![Collider { aabb: WallLocation::Left.aabb(), is_paddle: false }];
    let events = check_for_collisions(&mut ball, &colliders, &mut board);
    assert_eq!(events, 1);
    assert_eq!(board, Scoreboard { left: 2, right: 6 });
    // A fresh ball was served from the starting point.
    assert_eq!(ball.center, Vec2i { x: 0, y: -3000 });
    assert!(ball.velocity.x.abs() <= 400 && ball.velocity.y.abs() <= 400);
}

#[test]
fn ball_lost_on_the_right_scores_for_the_left() {
    let mut ball = ball_at(26000, 0, 300, 50);
    let mut board = Scoreboard { left: 2, right: 5 };
    let colliders = vec![Collider { aabb: WallLocation::Right.aabb(), is_paddle: false }];
    let events = check_for_collisions(&mut ball, &colliders, &mut board);
    assert_eq!(events, 1);
    assert_eq!(board, Scoreboard { left: 3, right: 5 });
    assert_eq!(ball.center, Vec2i { x: 0, y: -3000 });
}

#[test]
fn paddle_reflects_an_incoming_ball() {
    // The right paddle, struck on its left face by a ball moving right.
    let paddle = aabb(23400, 0, 600, 3600);
    let mut ball = ball_at(22000, 0, 300, 100);
    let mut board = Scoreboard { left: 0, right: 0 };
    let colliders = vec![Collider { aabb: paddle, is_paddle: true }];
    let events = check_for_collisions(&mut ball, &colliders, &mut board);
    assert_eq!(events, 1);
    assert_eq!(ball.velocity, Velocity { x: -300, y: 100 });
    assert_eq!(board, Scoreboard { left: 0, right: 0 });
    assert_eq!(ball.center, Vec2i { x: 22000, y: 0 });
}

#[test]
fn paddle_leaves_an_outgoing_ball_alone() {
    // Same overlap, but the ball is already moving away from the paddle.
    let paddle = aabb(23400, 0, 600, 3600);
    let mut ball = ball_at(22000, 0, -300, 100);
    let mut board = Scoreboard { left: 0, right: 0 };
    let colliders = vec![Collider { aabb: paddle, is_paddle: true }];
    let events = check_for_collisions(&mut ball, &colliders, &mut board);
    assert_eq!(events, 1);
    assert_eq!(ball.velocity, Velocity { x: -300, y: 100 });
}

#[test]
fn a_paddle_side_never_scores() {
    // A paddle struck on its left face scores for nobody even though a wall
    // struck there would.
    let paddle = aabb(23400, 0, 600, 3600);
    let mut ball = ball_at(22000, 0, 300, 0);
    let mut board = Scoreboard { left: 7, right: 9 };
    let colliders = vec![Collider { aabb: paddle, is_paddle: true }];
    check_for_collisions(&mut ball, &colliders, &mut board);
    assert_eq!(board, Scoreboard { left: 7, right: 9 });
}

#[test]
fn every_collider_is_visited_in_order() {
    // Overlapping both the top wall (reflecting y) and the left wall (losing
    // the ball) sends two events and still scores once.
    let mut ball = ball_at(-26000, 17000, -200, 300);
    let mut board = Scoreboard { left: 0, right: 0 };
    let colliders = vec![
        Collider { aabb: WallLocation::Top.aabb(), is_paddle: false },
        Collider { aabb: WallLocation::Left.aabb(), is_paddle: false },
    ];
    let events = check_for_collisions(&mut ball, &colliders, &mut board);
    assert_eq!(events, 2);
    assert_eq!(board, Scoreboard { left: 0, right: 1 });
    assert_eq!(ball.center, Vec2i { x: 0, y: -3000 });
}

#[test]
fn direction_from_keys() {
    let mut d: i64 = 0;
    direction_mutate(&mut d, true, false);
    assert_eq!(d, 1);
    let mut d: i64 = 0;
    direction_mutate(&mut d, false, true);
    assert_eq!(d, -1);
    let mut d: i64 = 0;
    direction_mutate(&mut d, true, true);
    assert_eq!(d, 0);
    let mut d: i64 = 5;
    direction_mutate(&mut d, false, false);
    assert_eq!(d, 5);
}

#[test]
fn paddle_moves_by_its_speed() {
    let mut y: i64 = 0;
    move_paddle(&mut y, true, false);
    assert_eq!(y, 500);
    move_paddle(&mut y, false, true);
    assert_eq!(y, 0);
    move_paddle(&mut y, false, false);
    assert_eq!(y, 0);
    move_paddle(&mut y, true, true);
    assert_eq!(y, 0);
}

#[test]
fn paddle_stops_at_the_walls() {
    let mut y: i64 = 13400;
    move_paddle(&mut y, true, false);
    assert_eq!(y, 13500);
    move_paddle(&mut y, true, false);
    assert_eq!(y, 13500);
    let mut y: i64 = -13400;
    move_paddle(&mut y, false, true);
    assert_eq!(y, -13500);
    move_paddle(&mut y, false, true);
    assert_eq!(y, -13500);
}

#[test]
fn velocity_moves_the_position() {
    let mut p = Vec2i { x: 10, y: 20 };
    apply_velocity(&mut p, &Velocity { x: 3, y: -4 });
    assert_eq!(p, Vec2i { x: 13, y: 16 });
}

#[test]
fn integer_square_roots() {
    assert_eq!(isqrt64(0), 0);
    assert_eq!(isqrt64(1), 1);
    assert_eq!(isqrt64(2), 1);
    assert_eq!(isqrt64(3), 1);
    assert_eq!(isqrt64(4), 2);
    assert_eq!(isqrt64(15), 3);
    assert_eq!(isqrt64(16), 4);
    assert_eq!(isqrt64(500_000_000_000), 707_106);
    assert_eq!(isqrt64(u64::MAX), 4_294_967_295);
}

#[test]
fn scaling_keeps_the_direction() {
    assert_eq!(scale_to_speed(3, 4), Velocity { x: 240, y: 320 });
    assert_eq!(scale_to_speed(-3, 4), Velocity { x: -240, y: 320 });
    assert_eq!(scale_to_speed(3, -4), Velocity { x: 240, y: -320 });
    assert_eq!(scale_to_speed(1, 0), Velocity { x: 400, y: 0 });
    assert_eq!(scale_to_speed(0, -1), Velocity { x: 0, y: -400 });
}

#[test]
fn the_first_serve_goes_down_right() {
    assert_eq!(initial_ball_velocity(), Velocity { x: 282, y: -282 });
}

#[test]
fn every_serve_starts_at_the_starting_point_with_bounded_speed() {
    for _ in 0..200 {
        let b = new_ball();
        assert_eq!(b.center, Vec2i { x: 0, y: -3000 });
        assert!(b.velocity.x.abs() <= 400);
        assert!(b.velocity.y.abs() <= 400);
        assert!(b.velocity.x != 0 || b.velocity.y != 0);
    }
}

#[test]
fn serves_vary() {
    // The serve direction is drawn anew each time; two hundred serves all
    // landing on one velocity would mean the draw is not random at all.
    let first = new_ball().velocity;
    let mut saw_another = false;
    for _ in 0..200 {
        if new_ball().velocity != first {
            saw_another = true;
        }
    }
    assert!(saw_another);
}

#[test]
fn scoreboard_shows_each_side_its_count() {
    let board = Scoreboard { left: 11, right: 22 };
    assert_eq!(update_scoreboard(&board, &Side(WallLocation::Left)), 11);
    assert_eq!(update_scoreboard(&board, &Side(WallLocation::Right)), 22);
    assert_eq!(update_scoreboard(&board, &Side(WallLocation::Top)), 0);
    assert_eq!(update_scoreboard(&board, &Side(WallLocation::Bottom)), 0);
}

#[test]
fn paddles_start_a_gap_inside_their_walls() {
    assert_eq!(paddle_start_x(&WallLocation::Left), -23400);
    assert_eq!(paddle_start_x(&WallLocation::Right), 23400);
}
