//! The phases of the game and what moves between them: clicks, keys, the
//! countdown and the physics step.
use vstd::prelude::*;

use crate::ball::{all_wf, remove_balls_under, step_balls, stepped, Ball};
use crate::cursor::{cursor_to_world, reaches, within_reach};
use crate::layout::{fresh_round, spawn_balls, start_positions};
use crate::random::random_color;
use crate::timer::GameTimer;
use crate::WORLD_LIMIT;

verus! {

/// Balls in a round.
pub const BALL_COUNT: usize = 20;

/// Length of a round, in nanoseconds.
pub const GAMETIME_LIMIT: u64 = 25000000000;

/// Diameter of the pause button, in units.
pub const PAUSE_BUTTON_SIZE: i64 = 32000;

/// Horizontal position of the pause button's centre, which sits one button
/// size in from the bottom right corner of the window.
pub const PAUSE_BUTTON_X: i64 = 288000;

/// Vertical position of the pause button's centre.
pub const PAUSE_BUTTON_Y: i64 = -208000;

/// The pause button's picture while a round runs.
pub const PAUSE_ICON_RUNNING: usize = 0;

/// The pause button's picture while the game is paused.
pub const PAUSE_ICON_PAUSED: usize = 1;

/// The phases of the game.
#[derive(Clone, Copy, Debug, PartialEq, Eq, Structural, Hash)]
pub enum AppState {
    Mainmenu,
    Ingame,
    Pause,
    Gameover,
    Gameclear,
}

impl Default for AppState {
    fn default() -> (r: AppState)
        ensures
            r == AppState::Mainmenu,
    {
        AppState::Mainmenu
    }
}

/// The keys that the end screens answer to.
#[derive(Clone, Copy, Debug, PartialEq, Eq, Structural)]
pub enum Key {
    /// Play another round.
    Retry,
    /// Go back to the title screen.
    BackToTitle,
    /// Any other key.
    Other,
}

/// One of the two screens that end a round.
pub open spec fn is_end_screen(s: AppState) -> bool {
    s == AppState::Gameover || s == AppState::Gameclear
}

/// What a game is, to the contracts.
pub struct GameView {
    pub state: AppState,
    /// Entering a round lays out fresh balls and starts the countdown over.
    pub setup_ingame: bool,
    pub balls: Seq<Ball>,
    pub ball_count: nat,
    pub timer: GameTimer,
}

/// The whole state of a game.
pub struct Game {
    pub state: AppState,
    pub setup_ingame: bool,
    pub balls: Vec<Ball>,
    pub ball_count: usize,
    pub timer: GameTimer,
}

impl View for Game {
    type V = GameView;

    open spec fn view(&self) -> GameView {
        GameView {
            state: self.state,
            setup_ingame: self.setup_ingame,
            balls: self.balls@,
            ball_count: self.ball_count as nat,
            timer: self.timer,
        }
    }
}

/// `post` is `pre` moved to the phase `to`. Leaving an end screen refills
/// the ball count; entering a round with setup pending lays out a fresh
/// round and starts the countdown over; entering an end screen clears the
/// balls.
pub open spec fn switched(pre: GameView, post: GameView, to: AppState) -> bool {
    let count = if is_end_screen(pre.state) {
        BALL_COUNT as nat
    } else {
        pre.ball_count
    };
    &&& post.state == to
    &&& post.setup_ingame == pre.setup_ingame
    &&& post.ball_count == count
    &&& if to == AppState::Ingame && pre.setup_ingame {
        fresh_round(post.balls, count) && post.timer == pre.timer.restarted()
    } else if is_end_screen(to) {
        post.balls.len() == 0 && post.timer == pre.timer
    } else {
        post.balls == pre.balls && post.timer == pre.timer
    }
}

/// A click at `(px, py)`, in world coordinates, reaches the pause button.
pub open spec fn on_pause_button(px: int, py: int) -> bool {
    within_reach(px, py, PAUSE_BUTTON_X as int, PAUSE_BUTTON_Y as int, PAUSE_BUTTON_SIZE as int)
}

/// `post` is `pre` after a click at `(px, py)`, in world coordinates.
/// - On the title screen a click starts a round.
/// - In a round the click removes the balls it reaches, one off the count
///   for each; when that empties the count the round is won, else a click
///   on the pause button pauses.
/// - While paused, a click on the pause button resumes the round as it was.
/// - The end screens ignore clicks.
pub open spec fn clicked(pre: GameView, post: GameView, px: int, py: int) -> bool {
    match pre.state {
        AppState::Mainmenu => switched(pre, post, AppState::Ingame),
        AppState::Ingame => {
            let kept = pre.balls.filter(|b: Ball| !b.under(px, py));
            let removed = pre.balls.len() - kept.len();
            let mid = GameView { balls: kept, ball_count: (pre.ball_count - removed) as nat, ..pre };
            if removed > 0 && mid.ball_count == 0 {
                switched(mid, post, AppState::Gameclear)
            } else if on_pause_button(px, py) {
                switched(mid, post, AppState::Pause)
            } else {
                post == mid
            }
        },
        AppState::Pause => if on_pause_button(px, py) {
            switched(GameView { setup_ingame: false, ..pre }, post, AppState::Ingame)
        } else {
            post == pre
        },
        _ => post == pre,
    }
}

/// `post` is `pre` after a key press: on an end screen, `Retry` starts a
/// new round and `BackToTitle` goes back to the title screen. Nothing else
/// answers to keys.
pub open spec fn key_pressed(pre: GameView, post: GameView, key: Key) -> bool {
    if is_end_screen(pre.state) && key == Key::Retry {
        switched(GameView { setup_ingame: true, ..pre }, post, AppState::Ingame)
    } else if is_end_screen(pre.state) && key == Key::BackToTitle {
        switched(GameView { setup_ingame: true, ..pre }, post, AppState::Mainmenu)
    } else {
        post == pre
    }
}

/// `post` is `pre` after `delta` nanoseconds: in a round the countdown runs,
/// and the round is lost in the tick that finishes it.
pub open spec fn ticked(pre: GameView, post: GameView, delta: nat) -> bool {
    if pre.state == AppState::Ingame {
        let mid = GameView { timer: pre.timer.ticked(delta), ..pre };
        if mid.timer.just_finished {
            switched(mid, post, AppState::Gameover)
        } else {
            post == mid
        }
    } else {
        post == pre
    }
}

/// `post` is `pre` after one step of the physics: in a round the balls move
/// as `stepped` says, and each marked ball may take a new colour. Nothing
/// moves outside a round.
pub open spec fn physics_stepped(pre: GameView, post: GameView) -> bool {
    if pre.state == AppState::Ingame {
        let (balls, marks) = stepped(pre.balls);
        &&& post == GameView { balls: post.balls, ..pre }
        &&& post.balls.len() == balls.len()
        &&& forall|k: int|
            0 <= k < balls.len() ==> #[trigger] post.balls[k] == (Ball {
                color: post.balls[k].color,
                ..balls[k]
            }) && (!marks[k] ==> post.balls[k] == balls[k])
    } else {
        post == pre
    }
}

impl GameView {
    /// The invariant of a game between events.
    pub open spec fn wf(self) -> bool {
        &&& all_wf(self.balls)
        &&& self.timer.wf()
        &&& self.ball_count <= start_positions().len()
        &&& (self.state == AppState::Ingame || self.state == AppState::Pause) ==> self.ball_count
            == self.balls.len()
        &&& is_end_screen(self.state) ==> self.balls.len() == 0
        &&& self.state == AppState::Mainmenu ==> self.setup_ingame && self.balls.len() == 0
    }
}

impl Game {
    /// A game on its title screen, with a full count of balls to come and a
    /// countdown of `GAMETIME_LIMIT`.
    pub fn new() -> (g: Game)
        ensures
            g@ == (GameView {
                state: AppState::Mainmenu,
                setup_ingame: true,
                balls: Seq::empty(),
                ball_count: BALL_COUNT as nat,
                timer: GameTimer {
                    duration: GAMETIME_LIMIT,
                    elapsed: 0,
                    finished: false,
                    just_finished: false,
                },
            }),
            g@.wf(),
    {
        let g = Game {
            state: AppState::Mainmenu,
            setup_ingame: true,
            balls: Vec::new(),
            ball_count: BALL_COUNT,
            timer: GameTimer::new(GAMETIME_LIMIT),
        };
        assert(g.balls@ =~= Seq::empty());
        g
    }

    /// Moves to the phase `to`, running what leaving the current phase and
    /// entering the new one do.
    fn switch_to(&mut self, to: AppState)
        requires
            all_wf(old(self).balls@),
            old(self).timer.wf(),
            old(self).ball_count <= start_positions().len(),
            is_end_screen(old(self).state) ==> old(self).balls@.len() == 0,
            to == AppState::Ingame && !old(self).setup_ingame ==> old(self).state
                == AppState::Pause && old(self).ball_count == old(self).balls@.len(),
            to == AppState::Pause ==> old(self).state == AppState::Ingame && old(self).ball_count
                == old(self).balls@.len(),
            to == AppState::Mainmenu ==> old(self).setup_ingame && is_end_screen(old(self).state),
        ensures
            switched(old(self)@, final(self)@, to),
            final(self)@.wf(),
    {
        assert(start_positions().len() == 22);
        if self.state == AppState::Gameover || self.state == AppState::Gameclear {
            self.ball_count = BALL_COUNT;
        }
        self.state = to;
        if to == AppState::Ingame && self.setup_ingame {
            self.balls = spawn_balls(self.ball_count);
            self.timer.reset();
        } else if to == AppState::Gameover || to == AppState::Gameclear {
            self.balls = Vec::new();
            assert(self.balls@ =~= Seq::<Ball>::empty());
        }
    }

    /// A click at `(cursor_x, cursor_y)` in a window of `width` by `height`
    /// units, in window coordinates (origin at the top left, `y` downwards).
    pub fn click(&mut self, cursor_x: i64, cursor_y: i64, width: i64, height: i64)
        requires
            old(self)@.wf(),
            0 <= cursor_x <= width <= WORLD_LIMIT,
            0 <= cursor_y <= height <= WORLD_LIMIT,
        ensures
            clicked(
                old(self)@,
                final(self)@,
                cursor_x - width / 2,
                height / 2 - cursor_y,
            ),
            final(self)@.wf(),
    {
        let (px, py) = cursor_to_world(cursor_x, cursor_y, width, height);
        match self.state {
            AppState::Mainmenu => {
                self.switch_to(AppState::Ingame);
            },
            AppState::Ingame => {
                let removed = remove_balls_under(&mut self.balls, px, py);
                self.ball_count = self.ball_count - removed;
                if removed > 0 && self.ball_count == 0 {
                    self.switch_to(AppState::Gameclear);
                } else if reaches(px, py, PAUSE_BUTTON_X, PAUSE_BUTTON_Y, PAUSE_BUTTON_SIZE) {
                    self.switch_to(AppState::Pause);
                }
            },
            AppState::Pause => {
                if reaches(px, py, PAUSE_BUTTON_X, PAUSE_BUTTON_Y, PAUSE_BUTTON_SIZE) {
                    self.setup_ingame = false;
                    self.switch_to(AppState::Ingame);
                }
            },
            _ => {},
        }
    }

    /// A key press.
    pub fn press_key(&mut self, key: Key)
        requires
            old(self)@.wf(),
        ensures
            key_pressed(old(self)@, final(self)@, key),
            final(self)@.wf(),
    {
        if self.state == AppState::Gameover || self.state == AppState::Gameclear {
            match key {
                Key::Retry => {
                    self.setup_ingame = true;
                    self.switch_to(AppState::Ingame);
                },
                Key::BackToTitle => {
                    self.setup_ingame = true;
                    self.switch_to(AppState::Mainmenu);
                },
                Key::Other => {},
            }
        }
    }

    /// Lets `delta` nanoseconds pass.
    pub fn tick(&mut self, delta: u64)
        requires
            old(self)@.wf(),
        ensures
            ticked(old(self)@, final(self)@, delta as nat),
            final(self)@.wf(),
    {
        if self.state == AppState::Ingame {
            if self.timer.tick(delta) {
                self.switch_to(AppState::Gameover);
            }
        }
    }

    /// One step of the physics; each ball that hit an edge or another ball
    /// takes a random colour.
    pub fn step(&mut self)
        requires
            old(self)@.wf(),
        ensures
            physics_stepped(old(self)@, final(self)@),
            final(self)@.wf(),
    {
        if self.state == AppState::Ingame {
            let marks = step_balls(&mut self.balls);
            let ghost moved = self.balls@;
            recolor(&mut self.balls, &marks);
            assert forall|k: int| 0 <= k < self.balls@.len() implies #[trigger] self.balls@[k].wf() by {
                assert(moved[k].wf());
            }
        }
    }

    /// The picture that the pause button shows.
    pub fn pause_icon(&self) -> (r: usize)
        ensures
            r == if self.state == AppState::Pause {
                PAUSE_ICON_PAUSED
            } else {
                PAUSE_ICON_RUNNING
            },
    {
        if self.state == AppState::Pause {
            PAUSE_ICON_PAUSED
        } else {
            PAUSE_ICON_RUNNING
        }
    }
}

/// Gives each marked ball a random colour.
fn recolor(balls: &mut Vec<Ball>, marks: &Vec<bool>)
    requires
        marks@.len() == old(balls)@.len(),
    ensures
        final(balls)@.len() == old(balls)@.len(),
        forall|k: int|
            0 <= k < old(balls)@.len() ==> #[trigger] final(balls)@[k] == (Ball {
                color: final(balls)@[k].color,
                ..old(balls)@[k]
            }) && (!marks@[k] ==> final(balls)@[k] == old(balls)@[k]),
{
    let n = balls.len();
    let mut i: usize = 0;
    while i < n
        invariant
            n == balls@.len(),
            n == old(balls)@.len(),
            n == marks@.len(),
            i <= n,
            forall|k: int|
                0 <= k < n ==> #[trigger] balls@[k] == (Ball {
                    color: balls@[k].color,
                    ..old(balls)@[k]
                }) && (!marks@[k] ==> balls@[k] == old(balls)@[k]),
        decreases n - i,
    {
        if marks[i] {
            let b = balls[i];
            balls.set(i, Ball { color: random_color(), ..b });
        }
        i = i + 1;
    }
}

} // verus!
