//! The numbers a match is played with.

use super::components::KeyAssignment;
use super::input::KeyCode;
use vstd::prelude::*;

verus! {

/// Keys bound to each player: attack, dodge, buff.
pub const N_KEYS_PER_PLAYER: usize = 3;

/// Bullets a player starts the match with.
pub const N_BULLETS: u8 = 2;

/// Dodges a player starts the match with.
pub const N_DODGES: u8 = 1;

/// Faces of the marksmanship dice of an unbuffed player.
pub const DEFAULT_MARKSMANSHIP: u8 = 100;

/// Faces of the luck dice of an unbuffed player.
pub const DEFAULT_LUCK: u8 = 50;

/// The round after which the match is decided on health.
pub const N_MAX_ROUND: u8 = 6;

/// Damage of an unbuffed hit.
pub const DEFAULT_DAMAGE: u8 = 1;

/// Health at the start of the match, and the most a heal restores.
pub const DEFAULT_HEALTH: u8 = 3;

/// Damage of a golden bullet.
pub const GOLDEN_BULLET_DAMAGE: u8 = 5;

/// Faces that a luck or marksmanship buff adds to the dice.
pub const BUFF_DICE_FACES: u8 = 50;

/// The least luck roll that restores a bullet or a dodge.
pub const RESTORE_THRESHOLD: u8 = 25;

/// Length of the countdown phase, in nanoseconds.
pub const DEFAULT_COUNTDOWN_TIMER: u64 = 3_000_000_000;

/// Length of the betting phase, in nanoseconds.
pub const DEFAULT_BETTING_TIMER: u64 = 5_000_000_000;

/// The keys of player one: S attacks, D dodges, F buffs.
pub open spec fn spec_player_one_keys() -> KeyAssignment {
    KeyAssignment([KeyCode::KeyS, KeyCode::KeyD, KeyCode::KeyF])
}

/// The keys of player two: J attacks, K dodges, L buffs.
pub open spec fn spec_player_two_keys() -> KeyAssignment {
    KeyAssignment([KeyCode::KeyJ, KeyCode::KeyK, KeyCode::KeyL])
}

#[verifier::when_used_as_spec(spec_player_one_keys)]
pub fn player_one_keys() -> (keys: KeyAssignment)
    ensures
        keys == spec_player_one_keys(),
{
    KeyAssignment([KeyCode::KeyS, KeyCode::KeyD, KeyCode::KeyF])
}

#[verifier::when_used_as_spec(spec_player_two_keys)]
pub fn player_two_keys() -> (keys: KeyAssignment)
    ensures
        keys == spec_player_two_keys(),
{
    KeyAssignment([KeyCode::KeyJ, KeyCode::KeyK, KeyCode::KeyL])
}

} // verus!
