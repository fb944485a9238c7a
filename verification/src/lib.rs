//! A two-player, same-keyboard duel played in rounds.
//!
//! Each round the players bet on an action (attack, dodge or buff), the bets
//! are resolved against each other with dice, and the round is closed by
//! deciding the match or preparing the next round. The crate holds the
//! simulation only: phases, timers, dice, combat, buffs and the end of the
//! match. A front end hands it the keys and the time of each frame and shows
//! the events it answers with.
//!
//! # Frames
//!
//! [`game::run`] advances a [`game::Game`] by one frame with real dice.
//! [`game::systems::plugin`] does the same with dice that the caller hands
//! in as a [`game::chance::Chance`], which makes a frame a function of what
//! it is given. Both are composed of the systems in [`game::systems`], one
//! module for each screen and each phase, and every system can be called on
//! its own.
//!
//! # Contracts
//!
//! Every function states what it does over the spec functions beside it.
//! Events are compared by their view, [`game::events::EventView`], in which
//! a text is a sequence of characters. The only code that is trusted and not
//! proved is in [`game::rng`], which draws random numbers.

pub mod game;
