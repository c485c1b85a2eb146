//! Balls: motion, bouncing off the window's edges and off each other, and
//! hit tests against the cursor.
use vstd::prelude::*;

use crate::cursor::{reaches, within_reach};
use crate::{BALL_SIZE, SPEED_LIMIT, WINDOW_HEIGHT, WINDOW_WIDTH, WORLD_LIMIT};

verus! {

/// A colour as red, green and blue channels.
#[derive(Clone, Copy, Debug, PartialEq, Eq, Structural)]
pub struct Rgb {
    pub r: u8,
    pub g: u8,
    pub b: u8,
}

/// One ball: its position, its depth for drawing, its velocity per step and
/// its colour. `id` tells the balls of one round apart.
#[derive(Clone, Copy, Debug, PartialEq, Eq, Structural)]
pub struct Ball {
    pub id: usize,
    pub x: i64,
    pub y: i64,
    pub z: i64,
    pub vx: i64,
    pub vy: i64,
    pub color: Rgb,
}

/// `v` held inside the world's bounds.
pub open spec fn clamp_world(v: int) -> int {
    if v > WORLD_LIMIT {
        WORLD_LIMIT as int
    } else if v < -WORLD_LIMIT {
        -WORLD_LIMIT
    } else {
        v
    }
}

impl Ball {
    /// Position and velocity lie within the world's limits.
    pub open spec fn wf(&self) -> bool {
        &&& -WORLD_LIMIT <= self.x <= WORLD_LIMIT
        &&& -WORLD_LIMIT <= self.y <= WORLD_LIMIT
        &&& -SPEED_LIMIT <= self.vx <= SPEED_LIMIT
        &&& -SPEED_LIMIT <= self.vy <= SPEED_LIMIT
    }

    /// The ball after one step of motion.
    pub open spec fn moved(self) -> Ball {
        Ball { x: clamp_world(self.x + self.vx) as i64, y: clamp_world(self.y + self.vy) as i64, ..self }
    }

    /// The ball reaches past the left or the right edge of the window.
    pub open spec fn past_side_edge(self) -> bool {
        WINDOW_WIDTH < 2 * self.x + BALL_SIZE || -WINDOW_WIDTH > 2 * self.x - BALL_SIZE
    }

    /// The ball reaches past the top or the bottom edge of the window.
    pub open spec fn past_top_or_bottom_edge(self) -> bool {
        WINDOW_HEIGHT < 2 * self.y + BALL_SIZE || -WINDOW_HEIGHT > 2 * self.y - BALL_SIZE
    }

    /// The ball after bouncing off the edges it reaches past: each velocity
    /// component across such an edge changes sign.
    pub open spec fn bounced(self) -> Ball {
        Ball {
            vx: if self.past_side_edge() { (-self.vx) as i64 } else { self.vx },
            vy: if self.past_top_or_bottom_edge() { (-self.vy) as i64 } else { self.vy },
            ..self
        }
    }

    /// A click at `(px, py)` reaches the ball.
    pub open spec fn under(self, px: int, py: int) -> bool {
        within_reach(px, py, self.x as int, self.y as int, BALL_SIZE as int)
    }

    /// Whether a click at `(px, py)`, in world coordinates, reaches the ball.
    pub fn under_cursor(&self, px: i64, py: i64) -> (r: bool)
        requires
            self.wf(),
            -WORLD_LIMIT <= px <= WORLD_LIMIT,
            -WORLD_LIMIT <= py <= WORLD_LIMIT,
        ensures
            r == self.under(px as int, py as int),
    {
        reaches(px, py, self.x, self.y, BALL_SIZE)
    }

    /// Moves the ball by its velocity, held inside the world's bounds.
    pub fn apply_velocity(&mut self)
        requires
            old(self).wf(),
        ensures
            *final(self) == old(self).moved(),
            final(self).wf(),
    {
        self.x = clamp_step(self.x, self.vx);
        self.y = clamp_step(self.y, self.vy);
    }

    /// Turns the ball back from the window's edges it reaches past. Returns
    /// whether it reached past any.
    pub fn bounce_off_walls(&mut self) -> (hit: bool)
        requires
            old(self).wf(),
        ensures
            *final(self) == old(self).bounced(),
            final(self).wf(),
            hit == (old(self).past_side_edge() || old(self).past_top_or_bottom_edge()),
    {
        let side = WINDOW_WIDTH < 2 * self.x + BALL_SIZE || -WINDOW_WIDTH > 2 * self.x - BALL_SIZE;
        let top_or_bottom = WINDOW_HEIGHT < 2 * self.y + BALL_SIZE || -WINDOW_HEIGHT > 2 * self.y
            - BALL_SIZE;
        if side {
            self.vx = -self.vx;
        }
        if top_or_bottom {
            self.vy = -self.vy;
        }
        side || top_or_bottom
    }
}

/// `p + v` held inside the world's bounds.
fn clamp_step(p: i64, v: i64) -> (r: i64)
    requires
        -WORLD_LIMIT <= p <= WORLD_LIMIT,
        -SPEED_LIMIT <= v <= SPEED_LIMIT,
    ensures
        r == clamp_world(p + v),
{
    let s = p + v;
    if s > WORLD_LIMIT {
        WORLD_LIMIT
    } else if s < -WORLD_LIMIT {
        -WORLD_LIMIT
    } else {
        s
    }
}

/// Two balls, each carried two steps ahead by its velocity, overlap: their
/// centres are at most one diameter apart.
pub open spec fn on_collision_course(a: Ball, b: Ball) -> bool {
    let dx = (a.x + 2 * a.vx) - (b.x + 2 * b.vx);
    let dy = (a.y + 2 * a.vy) - (b.y + 2 * b.vy);
    dx * dx + dy * dy <= BALL_SIZE * BALL_SIZE
}

/// `balls` with the velocities of the balls at `i` and `j` exchanged.
pub open spec fn swap_velocities(balls: Seq<Ball>, i: int, j: int) -> Seq<Ball> {
    balls.update(i, Ball { vx: balls[j].vx, vy: balls[j].vy, ..balls[i] }).update(
        j,
        Ball { vx: balls[i].vx, vy: balls[i].vy, ..balls[j] },
    )
}

/// The balls and the collision marks after every pair `(i, j)`, `i < j`,
/// from the pair `(i, j)` on has been looked at in order: a pair on a
/// collision course exchanges velocities, and both of its balls are marked.
pub open spec fn collide_from(balls: Seq<Ball>, marks: Seq<bool>, i: int, j: int) -> (Seq<Ball>, Seq<bool>)
    decreases balls.len() - i, balls.len() - j,
{
    if i < 0 || j <= i || i + 1 >= balls.len() {
        (balls, marks)
    } else if j >= balls.len() {
        collide_from(balls, marks, i + 1, i + 2)
    } else if on_collision_course(balls[i], balls[j]) {
        collide_from(swap_velocities(balls, i, j), marks.update(i, true).update(j, true), i, j + 1)
    } else {
        collide_from(balls, marks, i, j + 1)
    }
}

/// `a` and `b` are the same ball, but for its velocity.
pub open spec fn same_place(a: Ball, b: Ball) -> bool {
    a == Ball { vx: a.vx, vy: a.vy, ..b }
}

/// Collisions move no ball and drop no mark: every ball keeps its id,
/// position, depth and colour, and every marked ball stays marked.
pub proof fn lemma_collisions_keep_places(balls: Seq<Ball>, marks: Seq<bool>, i: int, j: int)
    requires
        marks.len() == balls.len(),
    ensures
        collide_from(balls, marks, i, j).0.len() == balls.len(),
        collide_from(balls, marks, i, j).1.len() == balls.len(),
        forall|k: int|
            0 <= k < balls.len() ==> same_place(
                #[trigger] collide_from(balls, marks, i, j).0[k],
                balls[k],
            ),
        forall|k: int|
            0 <= k < balls.len() && marks[k] ==> #[trigger] collide_from(balls, marks, i, j).1[k],
    decreases balls.len() - i, balls.len() - j,
{
    if i < 0 || j <= i || i + 1 >= balls.len() {
    } else if j >= balls.len() {
        lemma_collisions_keep_places(balls, marks, i + 1, i + 2);
    } else if on_collision_course(balls[i], balls[j]) {
        let swapped = swap_velocities(balls, i, j);
        let marked = marks.update(i, true).update(j, true);
        lemma_collisions_keep_places(swapped, marked, i, j + 1);
        assert forall|k: int| 0 <= k < balls.len() implies same_place(
            #[trigger] collide_from(balls, marks, i, j).0[k],
            balls[k],
        ) by {
            assert(same_place(swapped[k], balls[k]));
        }
        assert forall|k: int| 0 <= k < balls.len() && marks[k] implies #[trigger] collide_from(
            balls,
            marks,
            i,
            j,
        ).1[k] by {
            assert(marked[k]);
        }
    } else {
        lemma_collisions_keep_places(balls, marks, i, j + 1);
    }
}

/// The sums of the balls' velocity components.
pub open spec fn momentum(balls: Seq<Ball>) -> (int, int)
    decreases balls.len(),
{
    if balls.len() == 0 {
        (0, 0)
    } else {
        let m = momentum(balls.drop_last());
        (m.0 + balls.last().vx, m.1 + balls.last().vy)
    }
}

proof fn lemma_momentum_update(balls: Seq<Ball>, i: int, b: Ball)
    requires
        0 <= i < balls.len(),
    ensures
        momentum(balls.update(i, b)).0 == momentum(balls).0 - balls[i].vx + b.vx,
        momentum(balls.update(i, b)).1 == momentum(balls).1 - balls[i].vy + b.vy,
    decreases balls.len(),
{
    let updated = balls.update(i, b);
    if i == balls.len() - 1 {
        assert(updated.drop_last() =~= balls.drop_last());
    } else {
        assert(updated.drop_last() =~= balls.drop_last().update(i, b));
        lemma_momentum_update(balls.drop_last(), i, b);
    }
}

/// Collisions keep the momentum: the sums of the velocity components are
/// the same before and after.
pub proof fn lemma_collisions_keep_momentum(balls: Seq<Ball>, marks: Seq<bool>, i: int, j: int)
    ensures
        momentum(collide_from(balls, marks, i, j).0) == momentum(balls),
    decreases balls.len() - i, balls.len() - j,
{
    if i < 0 || j <= i || i + 1 >= balls.len() {
    } else if j >= balls.len() {
        lemma_collisions_keep_momentum(balls, marks, i + 1, i + 2);
    } else if on_collision_course(balls[i], balls[j]) {
        let first = balls.update(i, Ball { vx: balls[j].vx, vy: balls[j].vy, ..balls[i] });
        lemma_momentum_update(balls, i, Ball { vx: balls[j].vx, vy: balls[j].vy, ..balls[i] });
        lemma_momentum_update(first, j, Ball { vx: balls[i].vx, vy: balls[i].vy, ..balls[j] });
        lemma_collisions_keep_momentum(
            swap_velocities(balls, i, j),
            marks.update(i, true).update(j, true),
            i,
            j + 1,
        );
    } else {
        lemma_collisions_keep_momentum(balls, marks, i, j + 1);
    }
}

/// Every ball of `balls` is within the world's limits.
pub open spec fn all_wf(balls: Seq<Ball>) -> bool {
    forall|k: int| 0 <= k < balls.len() ==> #[trigger] balls[k].wf()
}

/// Whether two balls are on a collision course.
pub fn balls_collide(a: &Ball, b: &Ball) -> (r: bool)
    requires
        a.wf(),
        b.wf(),
    ensures
        r == on_collision_course(*a, *b),
{
    let dx = (a.x + 2 * a.vx) - (b.x + 2 * b.vx);
    let dy = (a.y + 2 * a.vy) - (b.y + 2 * b.vy);
    assert(0 <= dx * dx <= 0x1000000000000000) by (nonlinear_arith)
        requires
            -0x40000000 <= dx <= 0x40000000,
    ;
    assert(0 <= dy * dy <= 0x1000000000000000) by (nonlinear_arith)
        requires
            -0x40000000 <= dy <= 0x40000000,
    ;
    dx * dx + dy * dy <= BALL_SIZE * BALL_SIZE
}

/// Looks at every pair of balls in order, `(0, 1), (0, 2), ..., (1, 2), ...`;
/// a pair on a collision course exchanges velocities, and both of its balls
/// are marked in `marks`.
pub fn collide_balls(balls: &mut Vec<Ball>, marks: &mut Vec<bool>)
    requires
        all_wf(old(balls)@),
        old(marks)@.len() == old(balls)@.len(),
    ensures
        (final(balls)@, final(marks)@) == collide_from(old(balls)@, old(marks)@, 0, 1),
        final(balls)@.len() == old(balls)@.len(),
        final(marks)@.len() == old(balls)@.len(),
        all_wf(final(balls)@),
{
    let n = balls.len();
    let mut i: usize = 0;
    while n > 0 && i < n - 1
        invariant
            n == balls@.len(),
            n == marks@.len(),
            all_wf(balls@),
            i < n || n == 0,
            collide_from(balls@, marks@, i as int, i + 1) == collide_from(
                old(balls)@,
                old(marks)@,
                0,
                1,
            ),
        decreases n - i,
    {
        let mut j: usize = i + 1;
        while j < n
            invariant
                n == balls@.len(),
                n == marks@.len(),
                all_wf(balls@),
                i + 1 < n,
                i < j <= n,
                collide_from(balls@, marks@, i as int, j as int) == collide_from(
                    old(balls)@,
                    old(marks)@,
                    0,
                    1,
                ),
            decreases n - j,
        {
            let a = balls[i];
            let b = balls[j];
            let ghost before = balls@;
            let ghost marks_before = marks@;
            assert(before[i as int].wf() && before[j as int].wf());
            if balls_collide(&a, &b) {
                balls.set(i, Ball { vx: b.vx, vy: b.vy, ..a });
                balls.set(j, Ball { vx: a.vx, vy: a.vy, ..b });
                marks.set(i, true);
                marks.set(j, true);
                assert(balls@ =~= swap_velocities(before, i as int, j as int));
                assert(marks@ =~= marks_before.update(i as int, true).update(j as int, true));
            }
            j = j + 1;
        }
        i = i + 1;
    }
}

/// Moves every ball by its velocity.
pub fn move_balls(balls: &mut Vec<Ball>)
    requires
        all_wf(old(balls)@),
    ensures
        final(balls)@ == old(balls)@.map_values(|b: Ball| b.moved()),
        all_wf(final(balls)@),
{
    let n = balls.len();
    let mut i: usize = 0;
    while i < n
        invariant
            n == balls@.len(),
            n == old(balls)@.len(),
            i <= n,
            all_wf(balls@),
            forall|k: int| 0 <= k < i ==> #[trigger] balls@[k] == old(balls)@[k].moved(),
            forall|k: int| i <= k < n ==> #[trigger] balls@[k] == old(balls)@[k],
        decreases n - i,
    {
        let mut b = balls[i];
        assert(balls@[i as int].wf());
        b.apply_velocity();
        balls.set(i, b);
        i = i + 1;
    }
    assert(balls@ =~= old(balls)@.map_values(|b: Ball| b.moved()));
}

/// Turns every ball back from the window's edges it reaches past. Returns,
/// for each ball, whether it reached past an edge.
pub fn bounce_balls(balls: &mut Vec<Ball>) -> (marks: Vec<bool>)
    requires
        all_wf(old(balls)@),
    ensures
        final(balls)@ == old(balls)@.map_values(|b: Ball| b.bounced()),
        marks@ == old(balls)@.map_values(
            |b: Ball| b.past_side_edge() || b.past_top_or_bottom_edge(),
        ),
        all_wf(final(balls)@),
{
    let n = balls.len();
    let mut marks: Vec<bool> = Vec::new();
    let mut i: usize = 0;
    while i < n
        invariant
            n == balls@.len(),
            n == old(balls)@.len(),
            i <= n,
            marks@.len() == i,
            all_wf(balls@),
            forall|k: int| 0 <= k < i ==> #[trigger] balls@[k] == old(balls)@[k].bounced(),
            forall|k: int|
                0 <= k < i ==> #[trigger] marks@[k] == (old(balls)@[k].past_side_edge()
                    || old(balls)@[k].past_top_or_bottom_edge()),
            forall|k: int| i <= k < n ==> #[trigger] balls@[k] == old(balls)@[k],
        decreases n - i,
    {
        let mut b = balls[i];
        assert(balls@[i as int].wf());
        let hit = b.bounce_off_walls();
        balls.set(i, b);
        marks.push(hit);
        i = i + 1;
    }
    assert(balls@ =~= old(balls)@.map_values(|b: Ball| b.bounced()));
    assert(marks@ =~= old(balls)@.map_values(
        |b: Ball| b.past_side_edge() || b.past_top_or_bottom_edge(),
    ));
    marks
}

/// Removes every ball that a click at `(px, py)` reaches. Returns how many
/// were removed.
pub fn remove_balls_under(balls: &mut Vec<Ball>, px: i64, py: i64) -> (removed: usize)
    requires
        all_wf(old(balls)@),
        -WORLD_LIMIT <= px <= WORLD_LIMIT,
        -WORLD_LIMIT <= py <= WORLD_LIMIT,
    ensures
        final(balls)@ == old(balls)@.filter(|b: Ball| !b.under(px as int, py as int)),
        removed == old(balls)@.len() - final(balls)@.len(),
        all_wf(final(balls)@),
{
    let ghost pred = |b: Ball| !b.under(px as int, py as int);
    let n = balls.len();
    let mut kept: Vec<Ball> = Vec::new();
    let mut i: usize = 0;
    while i < n
        invariant
            n == balls@.len(),
            balls@ == old(balls)@,
            i <= n,
            all_wf(balls@),
            pred == (|b: Ball| !b.under(px as int, py as int)),
            kept@ == balls@.subrange(0, i as int).filter(pred),
            kept@.len() <= i,
            all_wf(kept@),
            -WORLD_LIMIT <= px <= WORLD_LIMIT,
            -WORLD_LIMIT <= py <= WORLD_LIMIT,
        decreases n - i,
    {
        let b = balls[i];
        assert(balls@[i as int].wf());
        let ghost before = kept@;
        if !b.under_cursor(px, py) {
            kept.push(b);
        }
        proof {
            assert(balls@.subrange(0, i + 1).drop_last() =~= balls@.subrange(0, i as int));
            assert(balls@.subrange(0, i + 1).last() == b);
            assert(pred(b) == !b.under(px as int, py as int));
            reveal(Seq::filter);
            assert(kept@ == balls@.subrange(0, i + 1).filter(pred));
        }
        i = i + 1;
    }
    assert(balls@.subrange(0, n as int) =~= balls@);
    let removed = n - kept.len();
    *balls = kept;
    removed
}

/// The balls and their marks after one step of the physics: every ball
/// moves, then bounces off the window's edges (marked if it did), then the
/// pairs on a collision course exchange velocities (both marked).
pub open spec fn stepped(balls: Seq<Ball>) -> (Seq<Ball>, Seq<bool>) {
    let moved = balls.map_values(|b: Ball| b.moved());
    collide_from(
        moved.map_values(|b: Ball| b.bounced()),
        moved.map_values(|b: Ball| b.past_side_edge() || b.past_top_or_bottom_edge()),
        0,
        1,
    )
}

/// One step of the physics. Returns, for each ball, whether it hit an edge
/// or another ball.
pub fn step_balls(balls: &mut Vec<Ball>) -> (marks: Vec<bool>)
    requires
        all_wf(old(balls)@),
    ensures
        (final(balls)@, marks@) == stepped(old(balls)@),
        final(balls)@.len() == old(balls)@.len(),
        marks@.len() == old(balls)@.len(),
        all_wf(final(balls)@),
{
    move_balls(balls);
    let mut marks = bounce_balls(balls);
    collide_balls(balls, &mut marks);
    marks
}

} // verus!
