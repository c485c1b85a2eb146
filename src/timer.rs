//! The round's countdown: a one-shot timer over nanoseconds.
use vstd::prelude::*;

use vstd::arithmetic::div_mod::{
    lemma_div_is_ordered, lemma_div_is_ordered_by_denominator, lemma_div_pos_is_pos,
};

verus! {

/// Nanoseconds in a second.
pub const NANOS_PER_SECOND: u64 = 1000000000;

/// Nanoseconds in a hundredth of a second.
pub const NANOS_PER_CENTISECOND: u64 = 10000000;

/// `n / d` rounded to the nearest integer, halves upwards.
pub open spec fn rounded_div(n: int, d: int) -> int {
    (n + d / 2) / d
}

/// A timer that runs once: it counts elapsed time up to its duration and
/// then stays finished.
#[derive(Clone, Copy, Debug, PartialEq, Eq, Structural)]
pub struct GameTimer {
    pub duration: u64,
    pub elapsed: u64,
    pub finished: bool,
    /// The last tick is the one that finished the timer.
    pub just_finished: bool,
}

impl GameTimer {
    /// The elapsed time never passes the duration, and equals it once the
    /// timer has finished.
    pub open spec fn wf(self) -> bool {
        &&& self.elapsed <= self.duration
        &&& self.finished ==> self.elapsed == self.duration
        &&& self.just_finished ==> self.finished
    }

    /// The timer after `delta` more nanoseconds. A finished timer stays as it
    /// is and is no longer just finished; any other one runs until its
    /// duration and finishes there.
    pub open spec fn ticked(self, delta: nat) -> GameTimer {
        if self.finished {
            GameTimer { just_finished: false, ..self }
        } else if self.elapsed + delta >= self.duration {
            GameTimer { elapsed: self.duration, finished: true, just_finished: true, ..self }
        } else {
            GameTimer { elapsed: (self.elapsed + delta) as u64, finished: false, just_finished: false, ..self }
        }
    }

    /// The timer started over: nothing elapsed, not finished.
    pub open spec fn restarted(self) -> GameTimer {
        GameTimer { elapsed: 0, finished: false, just_finished: false, ..self }
    }

    /// The time left, in nanoseconds.
    pub open spec fn left(self) -> int {
        self.duration - self.elapsed
    }

    /// A timer of `duration` nanoseconds that has not started.
    pub fn new(duration: u64) -> (t: GameTimer)
        ensures
            t == (GameTimer { duration, elapsed: 0, finished: false, just_finished: false }),
            t.wf(),
    {
        GameTimer { duration, elapsed: 0, finished: false, just_finished: false }
    }

    /// Lets `delta` nanoseconds pass. Returns whether this tick finished the
    /// timer.
    pub fn tick(&mut self, delta: u64) -> (just_finished: bool)
        requires
            old(self).wf(),
        ensures
            *final(self) == old(self).ticked(delta as nat),
            final(self).wf(),
            just_finished == final(self).just_finished,
    {
        if self.finished {
            self.just_finished = false;
        } else if delta >= self.duration - self.elapsed {
            self.elapsed = self.duration;
            self.finished = true;
            self.just_finished = true;
        } else {
            self.elapsed = self.elapsed + delta;
            self.just_finished = false;
        }
        self.just_finished
    }

    /// The time left, in nanoseconds.
    pub fn remaining(&self) -> (r: u64)
        requires
            self.wf(),
        ensures
            r == self.left(),
    {
        self.duration - self.elapsed
    }

    /// The time left in whole seconds, rounded to the nearest second.
    pub fn remaining_seconds(&self) -> (r: u64)
        requires
            self.wf(),
        ensures
            r == rounded_div(self.left(), NANOS_PER_SECOND as int),
    {
        round_div(self.duration - self.elapsed, NANOS_PER_SECOND)
    }

    /// The time the timer has run, in hundredths of a second: the duration
    /// and the time left are each rounded to hundredths first.
    pub fn elapsed_centiseconds(&self) -> (r: u64)
        requires
            self.wf(),
        ensures
            r == rounded_div(self.duration as int, NANOS_PER_CENTISECOND as int) - rounded_div(
                self.left(),
                NANOS_PER_CENTISECOND as int,
            ),
    {
        let whole = round_div(self.duration, NANOS_PER_CENTISECOND);
        let left = round_div(self.duration - self.elapsed, NANOS_PER_CENTISECOND);
        proof {
            lemma_div_is_ordered(
                self.left() + NANOS_PER_CENTISECOND / 2,
                self.duration + NANOS_PER_CENTISECOND / 2,
                NANOS_PER_CENTISECOND as int,
            );
        }
        whole - left
    }

    /// Starts the timer over: nothing elapsed, not finished.
    pub fn reset(&mut self)
        ensures
            *final(self) == old(self).restarted(),
            final(self).wf(),
    {
        self.elapsed = 0;
        self.finished = false;
        self.just_finished = false;
    }
}

/// `n / d` rounded to the nearest integer, halves upwards.
fn round_div(n: u64, d: u64) -> (r: u64)
    requires
        d > 0,
    ensures
        r == rounded_div(n as int, d as int),
{
    let wide = (n as u128 + (d / 2) as u128) / (d as u128);
    proof {
        lemma_div_pos_is_pos(n + d / 2, d as int);
        if d >= 2 {
            lemma_div_is_ordered_by_denominator(n + d / 2, 2, d as int);
        }
    }
    wide as u64
}

} // verus!
