use ittoku_click_game::ball::{
    balls_collide, bounce_balls, collide_balls, move_balls, remove_balls_under, step_balls, Ball,
    Rgb,
};
use ittoku_click_game::cursor::{cursor_to_world, reaches};
use ittoku_click_game::layout::{set_ball_positions, spawn_balls, SPAWN_SPEED};
use ittoku_click_game::random::random_color;
use ittoku_click_game::WORLD_LIMIT;

const GREY: Rgb = Rgb { r: 128, g: 128, b: 128 };

fn ball(id: usize, x: i64, y: i64, vx: i64, vy: i64) -> Ball {
    Ball { id, x, y, z: 0, vx, vy, color: GREY }
}

#[test]
fn ball_moves_by_its_velocity() {
    let mut b = ball(0, 1000, -500, 4000, -2000);
    b.apply_velocity();
    assert_eq!((b.x, b.y), (5000, -2500));
    assert_eq!((b.vx, b.vy), (4000, -2000));
}

#[test]
fn ball_motion_stops_at_world_limit() {
    let mut b = ball(0, WORLD_LIMIT - 10, -WORLD_LIMIT + 10, 100, -100);
    b.apply_velocity();
    assert_eq!((b.x, b.y), (WORLD_LIMIT, -WORLD_LIMIT));
}

#[test]
fn ball_bounces_off_right_edge() {
    // 2 * 310000 + 30000 > 640000: the rim is past the right edge.
    let mut b = ball(0, 310000, 0, 3000, 1000);
    assert!(b.bounce_off_walls());
    assert_eq!((b.vx, b.vy), (-3000, 1000));
}

#[test]
fn ball_bounces_off_bottom_edge() {
    let mut b = ball(0, 0, -230000, 3000, -1000);
    assert!(b.bounce_off_walls());
    assert_eq!((b.vx, b.vy), (3000, 1000));
}

#[test]
fn ball_touching_edge_exactly_does_not_bounce() {
    // 2 * 305000 + 30000 == 640000: not past the edge.
    let mut b = ball(0, 305000, 0, 3000, 1000);
    assert!(!b.bounce_off_walls());
    assert_eq!((b.vx, b.vy), (3000, 1000));
}

#[test]
fn ball_in_corner_bounces_both_ways() {
    let mut b = ball(0, -310000, 230000, -1000, 1000);
    assert!(b.bounce_off_walls());
    assert_eq!((b.vx, b.vy), (1000, -1000));
}

#[test]
fn near_balls_collide() {
    let a = ball(0, 0, 0, 0, 0);
    assert!(balls_collide(&a, &ball(1, 20000, 0, 0, 0)));
    assert!(balls_collide(&a, &ball(1, 30000, 0, 0, 0)));
    assert!(!balls_collide(&a, &ball(1, 30001, 0, 0, 0)));
    assert!(!balls_collide(&a, &ball(1, 40000, 0, 0, 0)));
}

#[test]
fn collision_looks_two_steps_ahead() {
    // 40000 apart, closing by 2 * (3000 + 3000) = 12000 in two steps.
    let a = ball(0, 0, 0, 3000, 0);
    let b = ball(1, 40000, 0, -3000, 0);
    assert!(balls_collide(&a, &b));
    let c = ball(1, 40000, 0, 3000, 0);
    assert!(!balls_collide(&a, &c));
}

#[test]
fn colliding_balls_exchange_velocities() {
    let mut balls = vec![
        ball(0, 0, 0, 1000, 2000),
        ball(1, 100000, 100000, 0, 0),
        ball(2, 20000, 0, -3000, 500),
    ];
    let mut marks = vec![false, false, false];
    collide_balls(&mut balls, &mut marks);
    assert_eq!(marks, vec![true, false, true]);
    assert_eq!((balls[0].vx, balls[0].vy), (-3000, 500));
    assert_eq!((balls[2].vx, balls[2].vy), (1000, 2000));
    assert_eq!((balls[1].vx, balls[1].vy), (0, 0));
    assert_eq!((balls[0].x, balls[2].x), (0, 20000));
}

#[test]
fn collisions_keep_earlier_marks() {
    let mut balls = vec![ball(0, 0, 0, 0, 0), ball(1, 200000, 0, 0, 0)];
    let mut marks = vec![false, true];
    collide_balls(&mut balls, &mut marks);
    assert_eq!(marks, vec![false, true]);
}

#[test]
fn move_and_bounce_whole_list() {
    let mut balls = vec![ball(0, 0, 0, 1000, 1000), ball(1, 310000, 0, 2000, 0)];
    move_balls(&mut balls);
    assert_eq!((balls[0].x, balls[0].y), (1000, 1000));
    assert_eq!(balls[1].x, 312000);
    let marks = bounce_balls(&mut balls);
    assert_eq!(marks, vec![false, true]);
    assert_eq!(balls[1].vx, -2000);
    assert_eq!(balls[0].vx, 1000);
}

#[test]
fn physics_step_moves_bounces_and_collides() {
    let mut balls = vec![
        ball(0, 0, 0, 1000, 0),
        ball(1, 25000, 0, -1000, 0),
        ball(2, 300000, 0, 6000, 0),
    ];
    let marks = step_balls(&mut balls);
    assert_eq!(marks, vec![true, true, true]);
    assert_eq!((balls[0].x, balls[1].x, balls[2].x), (1000, 24000, 306000));
    assert_eq!((balls[0].vx, balls[1].vx, balls[2].vx), (-1000, 1000, -6000));
}

#[test]
fn click_removes_balls_within_reach() {
    let mut balls = vec![
        ball(0, 0, 0, 0, 0),
        ball(1, 19999, 0, 0, 0),
        ball(2, 20000, 0, 0, 0),
        ball(3, -100000, 0, 0, 0),
    ];
    let removed = remove_balls_under(&mut balls, 0, 0);
    assert_eq!(removed, 2);
    let ids: Vec<usize> = balls.iter().map(|b| b.id).collect();
    assert_eq!(ids, vec![2, 3]);
}

#[test]
fn click_on_empty_space_removes_nothing() {
    let mut balls = vec![ball(0, 0, 0, 0, 0)];
    assert_eq!(remove_balls_under(&mut balls, 100000, 100000), 0);
    assert_eq!(balls.len(), 1);
}

#[test]
fn under_cursor_is_strict() {
    let b = ball(0, 1000, 1000, 0, 0);
    assert!(b.under_cursor(1000, 20999));
    assert!(!b.under_cursor(1000, 21000));
    assert!(b.under_cursor(13000, 16000));
    assert!(!b.under_cursor(13000, 17000));
}

#[test]
fn cursor_maps_to_world_coordinates() {
    assert_eq!(cursor_to_world(320000, 240000, 640000, 480000), (0, 0));
    assert_eq!(cursor_to_world(0, 0, 640000, 480000), (-320000, 240000));
    assert_eq!(cursor_to_world(640000, 480000, 640000, 480000), (320000, -240000));
    assert_eq!(cursor_to_world(1, 2, 3, 5), (0, 0));
}

#[test]
fn reach_needs_target_larger_than_cursor_range() {
    assert!(reaches(0, 0, 0, 0, 32000));
    assert!(reaches(21999, 0, 0, 0, 32000));
    assert!(!reaches(22000, 0, 0, 0, 32000));
    assert!(!reaches(0, 0, 0, 0, 10000));
    assert!(!reaches(0, 0, 0, 0, 0));
}

#[test]
fn start_positions_spiral_out() {
    let p = set_ball_positions();
    assert_eq!(p.len(), 22);
    assert_eq!(p[0], (0, 0, 0));
    assert_eq!(p[2], (30000, 30000, 2));
    assert_eq!(p[8], (-30000, 30000, 8));
    assert_eq!(p[9], (-30000, 60000, 8));
    assert_eq!(p[16], (60000, -60000, 15));
    assert_eq!(p[21], (-60000, -30000, 20));
}

#[test]
fn spawned_balls_take_start_positions() {
    let p = set_ball_positions();
    let balls = spawn_balls(20);
    assert_eq!(balls.len(), 20);
    for (k, b) in balls.iter().enumerate() {
        assert_eq!(b.id, k);
        assert_eq!((b.x, b.y, b.z), p[k]);
        assert!(-SPAWN_SPEED < b.vx && b.vx < SPAWN_SPEED);
        assert!(-SPAWN_SPEED < b.vy && b.vy < SPAWN_SPEED);
    }
    assert_eq!(spawn_balls(0).len(), 0);
    assert_eq!(spawn_balls(22).len(), 22);
}

#[test]
fn random_colors_vary() {
    let first = random_color();
    let differs = (0..64).any(|_| random_color() != first);
    assert!(differs);
}

#[test]
fn collisions_keep_places_and_momentum() {
    let mut balls = vec![
        ball(0, 0, 0, 1000, 2000),
        ball(1, 25000, 0, -3000, 500),
        ball(2, 12000, 20000, 700, -900),
        ball(3, 200000, 0, 5, 5),
    ];
    let before = balls.clone();
    let mut marks = vec![false; 4];
    collide_balls(&mut balls, &mut marks);
    assert!(marks.iter().any(|m| *m));
    for (a, b) in balls.iter().zip(before.iter()) {
        assert_eq!((a.id, a.x, a.y, a.z, a.color), (b.id, b.x, b.y, b.z, b.color));
    }
    let sum = |bs: &Vec<Ball>| bs.iter().fold((0, 0), |(x, y), b| (x + b.vx, y + b.vy));
    assert_eq!(sum(&balls), sum(&before));
}

#[test]
fn spawned_velocities_are_drawn_at_random() {
    let balls = spawn_balls(20);
    assert!(balls.iter().any(|b| b.vx != balls[0].vx || b.vy != balls[0].vy));
    assert!(balls.iter().any(|b| b.vx > -SPAWN_SPEED + 1));
}
