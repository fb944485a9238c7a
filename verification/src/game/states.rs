//! The phases of a match and the screens of the application.

use vstd::prelude::*;

verus! {

/// The phase a match is in.
///
/// A running match cycles through `Preparing`, `Countdown`, `Betting`,
/// `Fighting` and `RoundingUp`. `Paused` is the phase outside a match and
/// `GameOver` the phase a decided match stays in.
#[derive(Debug, Clone, Copy, PartialEq, Eq, Hash, Structural)]
pub enum PlayStates {
    Paused,
    Preparing,
    Countdown,
    Betting,
    Fighting,
    RoundingUp,
    GameOver,
}

impl PlayStates {
    /// The phase that follows `self` in the cycle; `Paused` and `GameOver`
    /// follow themselves.
    pub open spec fn spec_next(&self) -> PlayStates {
        match *self {
            PlayStates::Preparing => PlayStates::Countdown,
            PlayStates::Countdown => PlayStates::Betting,
            PlayStates::Betting => PlayStates::Fighting,
            PlayStates::Fighting => PlayStates::RoundingUp,
            PlayStates::RoundingUp => PlayStates::Preparing,
            PlayStates::Paused => PlayStates::Paused,
            PlayStates::GameOver => PlayStates::GameOver,
        }
    }

    /// Whether `self` is one of the five phases of a running match.
    pub open spec fn in_cycle(self) -> bool {
        self != PlayStates::Paused && self != PlayStates::GameOver
    }

    /// The phase reached from `self` after `n` transitions.
    pub open spec fn after(self, n: nat) -> PlayStates
        decreases n,
    {
        if n == 0 {
            self
        } else {
            self.spec_next().after((n - 1) as nat)
        }
    }

    #[verifier::when_used_as_spec(spec_next)]
    pub fn next(&self) -> (r: PlayStates)
        ensures
            r == self.spec_next(),
    {
        match *self {
            PlayStates::Preparing => PlayStates::Countdown,
            PlayStates::Countdown => PlayStates::Betting,
            PlayStates::Betting => PlayStates::Fighting,
            PlayStates::Fighting => PlayStates::RoundingUp,
            PlayStates::RoundingUp => PlayStates::Preparing,
            _ => *self,
        }
    }

    /// No transition leads into `Paused` or `GameOver`, and none leads out of
    /// them: the cycle and the two resting phases never mix.
    pub proof fn lemma_next_stays(self)
        ensures
            self.spec_next().in_cycle() == self.in_cycle(),
            !self.in_cycle() ==> self.spec_next() == self,
            self.in_cycle() ==> self.spec_next() != self,
    {
    }

    /// Five transitions bring a running match back to the phase it was in,
    /// and no fewer do.
    pub proof fn lemma_cycle_of_five(self, n: nat)
        requires
            self.in_cycle(),
        ensures
            self.after(5) == self,
            0 < n < 5 ==> self.after(n) != self,
    {
        reveal_with_fuel(PlayStates::after, 6);
    }

    /// `Paused` and `GameOver` stay what they are under any number of
    /// transitions.
    pub proof fn lemma_resting_is_fixed(self, n: nat)
        requires
            !self.in_cycle(),
        ensures
            self.after(n) == self,
        decreases n,
    {
        if n > 0 {
            self.lemma_resting_is_fixed((n - 1) as nat);
        }
    }
}

impl Default for PlayStates {
    fn default() -> (r: PlayStates)
        ensures
            r == PlayStates::Paused,
    {
        PlayStates::Paused
    }
}

/// The screen the application shows.
#[derive(Debug, Clone, Copy, PartialEq, Eq, Hash, Structural)]
pub enum AppStates {
    Menu,
    Loading,
    InGame,
}

impl Default for AppStates {
    fn default() -> (r: AppStates)
        ensures
            r == AppStates::Menu,
    {
        AppStates::Menu
    }
}

} // verus!
