//! Where the balls of a new round start, and how they are made.
use vstd::prelude::*;

use crate::ball::{all_wf, Ball};
use crate::random::{random_color, sample_range};
use crate::BALL_SIZE;

verus! {

/// A new ball's velocity components lie strictly between `-SPAWN_SPEED` and
/// `SPAWN_SPEED` (four pixels per step).
pub const SPAWN_SPEED: i64 = 4000;

/// The point `(gx * BALL_SIZE, gy * BALL_SIZE, z)`: the centre of grid cell
/// `(gx, gy)`, drawn at depth `z`.
pub open spec fn cell(gx: int, gy: int, z: int) -> (i64, i64, i64) {
    ((gx * BALL_SIZE) as i64, (gy * BALL_SIZE) as i64, z as i64)
}

/// The starting points of the balls, `(x, y, z)`, in the order in which
/// balls take them: a spiral of cells one diameter wide around the centre.
pub open spec fn start_positions() -> Seq<(i64, i64, i64)> {
    seq![
        cell(0, 0, 0),
        cell(0, 1, 1),
        cell(1, 1, 2),
        cell(1, 0, 3),
        cell(1, -1, 4),
        cell(0, -1, 5),
        cell(-1, -1, 6),
        cell(-1, 0, 7),
        cell(-1, 1, 8),
        cell(-1, 2, 8),
        cell(0, 2, 9),
        cell(1, 2, 10),
        cell(2, 2, 11),
        cell(2, 1, 12),
        cell(2, 0, 13),
        cell(2, -1, 14),
        cell(2, -2, 15),
        cell(1, -2, 16),
        cell(0, -2, 17),
        cell(-1, -2, 18),
        cell(-2, -2, 19),
        cell(-2, -1, 20),
    ]
}

fn at_cell(gx: i64, gy: i64, z: i64) -> (r: (i64, i64, i64))
    requires
        -2 <= gx <= 2,
        -2 <= gy <= 2,
    ensures
        r == cell(gx as int, gy as int, z as int),
{
    (gx * BALL_SIZE, gy * BALL_SIZE, z)
}

/// The starting points of the balls.
pub fn set_ball_positions() -> (r: Vec<(i64, i64, i64)>)
    ensures
        r@ == start_positions(),
{
    let r = vec![
        at_cell(0, 0, 0),
        at_cell(0, 1, 1),
        at_cell(1, 1, 2),
        at_cell(1, 0, 3),
        at_cell(1, -1, 4),
        at_cell(0, -1, 5),
        at_cell(-1, -1, 6),
        at_cell(-1, 0, 7),
        at_cell(-1, 1, 8),
        at_cell(-1, 2, 8),
        at_cell(0, 2, 9),
        at_cell(1, 2, 10),
        at_cell(2, 2, 11),
        at_cell(2, 1, 12),
        at_cell(2, 0, 13),
        at_cell(2, -1, 14),
        at_cell(2, -2, 15),
        at_cell(1, -2, 16),
        at_cell(0, -2, 17),
        at_cell(-1, -2, 18),
        at_cell(-2, -2, 19),
        at_cell(-2, -1, 20),
    ];
    assert(r@ =~= start_positions());
    r
}

/// Ball `k` of a new round: it starts at the `k`-th starting point, with
/// a velocity whose components lie strictly within `SPAWN_SPEED`.
pub open spec fn fresh_ball(b: Ball, k: int) -> bool {
    &&& b.id == k
    &&& (b.x, b.y, b.z) == start_positions()[k]
    &&& -SPAWN_SPEED < b.vx < SPAWN_SPEED
    &&& -SPAWN_SPEED < b.vy < SPAWN_SPEED
}

/// `balls` are the balls of a new round of `count` balls.
pub open spec fn fresh_round(balls: Seq<Ball>, count: nat) -> bool {
    &&& balls.len() == count
    &&& forall|k: int| 0 <= k < count ==> #[trigger] fresh_ball(balls[k], k)
}

/// The balls of a new round: `count` balls on the first `count` starting
/// points, each with a random velocity and a random colour.
pub fn spawn_balls(count: usize) -> (r: Vec<Ball>)
    requires
        count <= start_positions().len(),
    ensures
        fresh_round(r@, count as nat),
        all_wf(r@),
{
    let positions = set_ball_positions();
    let mut balls: Vec<Ball> = Vec::new();
    let mut i: usize = 0;
    while i < count
        invariant
            count <= positions@.len(),
            positions@ == start_positions(),
            i <= count,
            balls@.len() == i,
            forall|k: int| 0 <= k < i ==> #[trigger] fresh_ball(balls@[k], k),
            all_wf(balls@),
        decreases count - i,
    {
        let (x, y, z) = positions[i];
        let vx = sample_range(-SPAWN_SPEED + 1, SPAWN_SPEED);
        let vy = sample_range(-SPAWN_SPEED + 1, SPAWN_SPEED);
        let color = random_color();
        balls.push(Ball { id: i, x, y, z, vx, vy, color });
        assert(fresh_ball(balls@[i as int], i as int));
        i = i + 1;
    }
    balls
}

} // verus!
