//! What a match keeps besides its players: timers, the round and the latch
//! that ends it.

pub mod assets;

use self::assets::Asset;
use super::settings::{DEFAULT_BETTING_TIMER, DEFAULT_COUNTDOWN_TIMER};
use vstd::prelude::*;

verus! {

/// A timer that runs once: it collects the time of each frame and reports
/// the one frame in which it reaches its duration.
#[derive(Debug, Clone, Copy, PartialEq, Eq, Structural)]
pub struct Timer {
    /// The time to reach, in nanoseconds.
    pub duration: u64,
    /// The time collected so far, never shown above `duration` by `tick`.
    pub elapsed: u64,
    /// Whether the duration was reached since the last reset.
    pub done: bool,
    /// Whether the duration was reached by the last call of `tick`.
    pub done_this_tick: bool,
}

impl Timer {
    /// A timer of the given duration that has collected no time.
    pub open spec fn spec_new(duration: u64) -> Timer {
        Timer { duration, elapsed: 0, done: false, done_this_tick: false }
    }

    /// The timer after a frame of `delta` nanoseconds.
    ///
    /// A running timer that reaches its duration stops there and reports it;
    /// a timer that is done collects nothing and reports nothing.
    pub open spec fn spec_tick(self, delta: u64) -> Timer {
        if self.done {
            Timer { done_this_tick: false, ..self }
        } else if self.elapsed + delta >= self.duration {
            Timer { elapsed: self.duration, done: true, done_this_tick: true, ..self }
        } else {
            Timer { elapsed: (self.elapsed + delta) as u64, done_this_tick: false, ..self }
        }
    }

    /// The timer set back to its start, with the duration kept.
    pub open spec fn spec_reset(self) -> Timer {
        Timer::spec_new(self.duration)
    }

    /// The time left to collect.
    pub open spec fn spec_remaining(&self) -> u64 {
        if self.elapsed >= self.duration {
            0
        } else {
            (self.duration - self.elapsed) as u64
        }
    }

    #[verifier::when_used_as_spec(spec_new)]
    pub fn new(duration: u64) -> (timer: Timer)
        ensures
            timer == Timer::spec_new(duration),
    {
        Timer { duration, elapsed: 0, done: false, done_this_tick: false }
    }

    /// Advances the timer by a frame of `delta` nanoseconds.
    pub fn tick(&mut self, delta: u64)
        ensures
            *final(self) == old(self).spec_tick(delta),
    {
        if self.done {
            self.done_this_tick = false;
        } else if self.elapsed >= self.duration || delta >= self.duration - self.elapsed {
            self.elapsed = self.duration;
            self.done = true;
            self.done_this_tick = true;
        } else {
            self.elapsed = self.elapsed + delta;
            self.done_this_tick = false;
        }
    }

    /// Whether the timer has reached its duration since the last reset.
    pub fn finished(&self) -> (done: bool)
        ensures
            done == self.done,
    {
        self.done
    }

    /// Whether the last call of `tick` was the one that reached the duration.
    pub fn just_finished(&self) -> (done: bool)
        ensures
            done == self.done_this_tick,
    {
        self.done_this_tick
    }

    /// Sets the timer back to its start.
    pub fn reset(&mut self)
        ensures
            *final(self) == old(self).spec_reset(),
    {
        self.elapsed = 0;
        self.done = false;
        self.done_this_tick = false;
    }

    #[verifier::when_used_as_spec(spec_remaining)]
    pub fn remaining(&self) -> (left: u64)
        ensures
            left == self.spec_remaining(),
    {
        if self.elapsed >= self.duration {
            0
        } else {
            self.duration - self.elapsed
        }
    }

    /// A timer reports its end in one frame only: whatever the frames that
    /// follow bring, a timer that is done reports nothing until it is reset.
    pub proof fn lemma_fires_once(self, delta: u64, later: u64)
        ensures
            self.spec_tick(delta).done_this_tick ==> self.spec_tick(delta).done,
            self.spec_tick(delta).done ==> !self.spec_tick(delta).spec_tick(later).done_this_tick,
            self.spec_tick(delta).done ==> self.spec_tick(delta).spec_tick(later).done,
    {
    }

    /// A fresh timer reports its end in the frame in which the time
    /// collected reaches the duration, and in no frame before.
    pub proof fn lemma_fires_when_due(duration: u64, first: u64, second: u64)
        ensures
            Timer::spec_new(duration).spec_tick(first).done_this_tick == (first >= duration),
            first < duration ==> Timer::spec_new(duration).spec_tick(first).spec_tick(
                second,
            ).done_this_tick == (first + second >= duration),
    {
    }
}

/// The timer of the betting phase.
#[derive(Debug, Clone, Copy, PartialEq, Eq, Structural)]
pub struct BettingTimer(pub Timer);

impl Default for BettingTimer {
    fn default() -> (r: BettingTimer)
        ensures
            r.0 == Timer::spec_new(DEFAULT_BETTING_TIMER),
    {
        BettingTimer(Timer::new(DEFAULT_BETTING_TIMER))
    }
}

/// The timer of the countdown phase.
#[derive(Debug, Clone, Copy, PartialEq, Eq, Structural)]
pub struct CountdownTimer(pub Timer);

impl Default for CountdownTimer {
    fn default() -> (r: CountdownTimer)
        ensures
            r.0 == Timer::spec_new(DEFAULT_COUNTDOWN_TIMER),
    {
        CountdownTimer(Timer::new(DEFAULT_COUNTDOWN_TIMER))
    }
}

/// The number of the round being played, counted from 1.
#[derive(Debug, Clone, Copy, PartialEq, Eq, Structural)]
pub struct RoundCounter(pub u8);

impl Default for RoundCounter {
    fn default() -> (r: RoundCounter)
        ensures
            r.0 == 1,
    {
        RoundCounter(1)
    }
}

/// The latch that a decided match sets.
#[derive(Debug, Clone, Copy, PartialEq, Eq, Structural)]
pub struct GameOver(pub bool);

impl Default for GameOver {
    fn default() -> (r: GameOver)
        ensures
            !r.0,
    {
        GameOver(false)
    }
}

/// The assets that were asked for and are not yet known to be loaded, in the
/// order in which they were asked for.
#[derive(Debug, Clone, PartialEq, Eq)]
pub struct AssetsLoading(pub Vec<Asset>);

impl Default for AssetsLoading {
    fn default() -> (r: AssetsLoading)
        ensures
            r.0@.len() == 0,
    {
        AssetsLoading(Vec::new())
    }
}

} // verus!
