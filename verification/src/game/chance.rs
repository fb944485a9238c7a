//! The dice of a frame.
//!
//! The systems never throw a dice themselves: whatever a frame may need of
//! chance is handed to them, so that what they do is a function of what they
//! are given. [`crate::game::draw`] throws the dice that a frame needs.

use super::components::{Buffes, Player, PlayerStates};
use super::systems::in_game::rounding_up::{continues, restores, will_continue};
use super::Game;
use vstd::prelude::*;

verus! {

/// The two dice of one shot: the marksmanship of the player who shoots and
/// the luck of the player shot at.
#[derive(Debug, Clone, Copy, PartialEq, Eq, Structural)]
pub struct Shot {
    pub marksmanship: u8,
    pub luck: u8,
}

impl Shot {
    /// A shot lands where marksmanship beats luck.
    pub open spec fn spec_hits(&self) -> bool {
        self.marksmanship > self.luck
    }

    /// Whether the shot shows faces of the dice of the two players.
    pub open spec fn fits(&self, attacker: &Player, defender: &Player) -> bool {
        &&& attacker.marksmanship.value.shows(self.marksmanship)
        &&& defender.luck.value.shows(self.luck)
    }

    #[verifier::when_used_as_spec(spec_hits)]
    pub fn hits(&self) -> (hit: bool)
        ensures
            hit == self.spec_hits(),
    {
        self.marksmanship > self.luck
    }

    /// Throws the marksmanship dice of `attacker` and the luck dice of
    /// `defender`.
    pub fn draw(attacker: &Player, defender: &Player) -> (shot: Shot)
        requires
            attacker.marksmanship.value.rollable(),
            defender.luck.value.rollable(),
        ensures
            shot.fits(attacker, defender),
    {
        let marksmanship = attacker.marksmanship.value.roll();
        let luck = defender.luck.value.roll();
        Shot { marksmanship, luck }
    }
}

/// Everything a frame may need of chance. In each pair the first entry
/// belongs to player one and the second to player two.
#[derive(Debug, Clone, Copy, PartialEq, Eq)]
pub struct Chance {
    /// The buff each player draws if they buff.
    pub buffs: (Buffes, Buffes),
    /// The shot fired at each player, if the other one shoots.
    pub shots: (Shot, Shot),
    /// The luck each player has in winning a bullet back.
    pub bullet_rolls: (u8, u8),
    /// The luck each player has in winning a dodge back.
    pub dodge_rolls: (u8, u8),
}

impl Chance {
    /// The chance of a frame in which no dice is thrown: every dice lies on
    /// its first face, and the buff to draw is a heal.
    pub open spec fn spec_still() -> Chance {
        Chance {
            buffs: (Buffes::HealBuff, Buffes::HealBuff),
            shots: (Shot { marksmanship: 1, luck: 1 }, Shot { marksmanship: 1, luck: 1 }),
            bullet_rolls: (1, 1),
            dodge_rolls: (1, 1),
        }
    }

    #[verifier::when_used_as_spec(spec_still)]
    pub fn still() -> (chance: Chance)
        ensures
            chance == Chance::spec_still(),
    {
        Chance {
            buffs: (Buffes::HealBuff, Buffes::HealBuff),
            shots: (Shot { marksmanship: 1, luck: 1 }, Shot { marksmanship: 1, luck: 1 }),
            bullet_rolls: (1, 1),
            dodge_rolls: (1, 1),
        }
    }
}

impl Chance {
    /// Draws a buff for each player who is buffing as the betting ends. Which
    /// buff a player draws is left open.
    pub fn draw_buffs(&mut self, game: &Game)
        ensures
            *final(self) == (Chance { buffs: final(self).buffs, ..*old(self) }),
            game.player_one.state.0 != PlayerStates::Buffing ==> final(self).buffs.0 == old(
                self,
            ).buffs.0,
            game.player_two.state.0 != PlayerStates::Buffing ==> final(self).buffs.1 == old(
                self,
            ).buffs.1,
    {
        if game.player_one.state.0 == PlayerStates::Buffing {
            self.buffs.0 = Buffes::sample();
        }
        if game.player_two.state.0 == PlayerStates::Buffing {
            self.buffs.1 = Buffes::sample();
        }
    }

    /// Whether the fight will throw the dice of a shot of `attacker` at
    /// `defender`: an attack on a player who dodges needs no dice.
    pub open spec fn rolls_shot(attacker: Player, defender: Player) -> bool {
        attacker.state.0 == PlayerStates::Attacking && defender.state.0 != PlayerStates::Dodging
    }

    /// Throws the dice of each shot that the fight will resolve, and leaves
    /// the others as they lie. A shot that is thrown shows faces of the dice
    /// of the two players, whatever lay there before.
    pub fn draw_shots(&mut self, game: &Game)
        requires
            Chance::rolls_shot(game.player_two, game.player_one) ==> ({
                &&& game.player_two.marksmanship.value.rollable()
                &&& game.player_one.luck.value.rollable()
            }),
            Chance::rolls_shot(game.player_one, game.player_two) ==> ({
                &&& game.player_one.marksmanship.value.rollable()
                &&& game.player_two.luck.value.rollable()
            }),
        ensures
            *final(self) == (Chance { shots: final(self).shots, ..*old(self) }),
            Chance::rolls_shot(game.player_two, game.player_one) ==> final(self).shots.0.fits(
                &game.player_two,
                &game.player_one,
            ),
            !Chance::rolls_shot(game.player_two, game.player_one) ==> final(self).shots.0 == old(
                self,
            ).shots.0,
            Chance::rolls_shot(game.player_one, game.player_two) ==> final(self).shots.1.fits(
                &game.player_one,
                &game.player_two,
            ),
            !Chance::rolls_shot(game.player_one, game.player_two) ==> final(self).shots.1 == old(
                self,
            ).shots.1,
    {
        if game.player_two.state.0 == PlayerStates::Attacking && game.player_one.state.0
            != PlayerStates::Dodging {
            self.shots.0 = Shot::draw(&game.player_two, &game.player_one);
        }
        if game.player_one.state.0 == PlayerStates::Attacking && game.player_two.state.0
            != PlayerStates::Dodging {
            self.shots.1 = Shot::draw(&game.player_one, &game.player_two);
        }
    }

    /// Whether the rounding up will throw the luck dice of the players: the
    /// round is one after which resources are won back, and the match goes
    /// on.
    pub open spec fn rolls_luck(game: Game) -> bool {
        continues(game) && restores(game.round_counter)
    }

    /// Throws the luck dice of each player for a bullet and for a dodge where
    /// the rounding up will ask for them, and leaves them as they lie where
    /// it will not. A roll that is thrown shows a face of the luck dice of
    /// its player, whatever lay there before.
    pub fn draw_rolls(&mut self, game: &Game)
        requires
            Chance::rolls_luck(*game) ==> ({
                &&& game.player_one.luck.value.rollable()
                &&& game.player_two.luck.value.rollable()
            }),
        ensures
            *final(self) == (Chance {
                bullet_rolls: final(self).bullet_rolls,
                dodge_rolls: final(self).dodge_rolls,
                ..*old(self)
            }),
            Chance::rolls_luck(*game) ==> ({
                &&& game.player_one.luck.value.shows(final(self).bullet_rolls.0)
                &&& game.player_two.luck.value.shows(final(self).bullet_rolls.1)
                &&& game.player_one.luck.value.shows(final(self).dodge_rolls.0)
                &&& game.player_two.luck.value.shows(final(self).dodge_rolls.1)
            }),
            !Chance::rolls_luck(*game) ==> *final(self) == *old(self),
    {
        if will_continue(game) && game.round_counter.0 % 2 == 0 {
            self.bullet_rolls.0 = game.player_one.luck.value.roll();
            self.bullet_rolls.1 = game.player_two.luck.value.roll();
            self.dodge_rolls.0 = game.player_one.luck.value.roll();
            self.dodge_rolls.1 = game.player_two.luck.value.roll();
        }
    }
}

} // verus!
