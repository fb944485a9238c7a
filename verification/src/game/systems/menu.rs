//! The menu: the screen before a match.

use crate::game::chance::Chance;
use crate::game::events::Event;
use crate::game::input::{Input, KeyCode};
use crate::game::states::AppStates;
use crate::game::systems::Schedule;
use crate::game::Game;
use vstd::prelude::*;

verus! {

/// Asks for a match where the enter key went down.
pub fn wait_for_input_to_start_game(input: &Input, next_app_state: &mut Option<AppStates>)
    ensures
        *final(next_app_state) == (if input.pressed(KeyCode::Enter) {
            Some(AppStates::InGame)
        } else {
            *old(next_app_state)
        }),
{
    if input.pressed(KeyCode::Enter) {
        *next_app_state = Some(AppStates::InGame);
    }
}

/// The match after the systems of the menu ran: the enter key asks for a
/// match.
pub open spec fn after(schedule: Schedule, game: Game, input: Input) -> Game {
    if schedule == Schedule::Update && input.pressed(KeyCode::Enter) {
        Game { next_app_state: Some(AppStates::InGame), ..game }
    } else {
        game
    }
}

/// Runs the systems of the menu that are due on `schedule`.
pub fn plugin(
    schedule: Schedule,
    game: &mut Game,
    input: &Input,
    chance: &Chance,
    events: &mut Vec<Event>,
)
    ensures
        *final(game) == after(schedule, *old(game), *input),
        final(events).deep_view() == old(events).deep_view(),
{
    match schedule {
        Schedule::Update => {
            wait_for_input_to_start_game(input, &mut game.next_app_state);
        },
        _ => {},
    }
}

} // verus!
