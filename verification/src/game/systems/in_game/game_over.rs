//! The phase of a decided match: the outcome is shown until the players
//! leave or play again.

use crate::game::chance::Chance;
use crate::game::events::{decimal, decimal_text, Event, GameOverEvent, GameOvers};
use crate::game::input::{Input, KeyCode};
use crate::game::states::AppStates;
use crate::game::systems::Schedule;
use crate::game::Game;
use vstd::prelude::*;
use vstd::string::StringExecFns;

verus! {

/// Asks for the menu where the enter key went down.
pub fn wait_for_input_to_exit_game(input: &Input, next_app_state: &mut Option<AppStates>)
    ensures
        *final(next_app_state) == (if input.pressed(KeyCode::Enter) {
            Some(AppStates::Menu)
        } else {
            *old(next_app_state)
        }),
{
    if input.pressed(KeyCode::Enter) {
        *next_app_state = Some(AppStates::Menu);
    }
}

/// Asks for a new match, by way of the loading screen, where the space bar
/// went down.
pub fn wait_for_input_to_start_new_game(input: &Input, next_app_state: &mut Option<AppStates>)
    ensures
        *final(next_app_state) == (if input.pressed(KeyCode::Space) {
            Some(AppStates::Loading)
        } else {
            *old(next_app_state)
        }),
{
    if input.pressed(KeyCode::Space) {
        *next_app_state = Some(AppStates::Loading);
    }
}

/// The text that announces the outcome of a match.
pub open spec fn winner_text(event: GameOverEvent) -> Seq<char> {
    match event.state {
        GameOvers::Winner => "Player "@ + decimal(event.player.unwrap() as nat) + " won"@,
        GameOvers::Tie => "It's a tie!"@,
    }
}

/// Writes the text that announces the outcome of a match. A win names its
/// winner.
pub fn spawn_winner_text(event: &GameOverEvent) -> (text: String)
    requires
        event.state == GameOvers::Winner ==> event.player is Some,
    ensures
        text@ == winner_text(*event),
{
    match event.state {
        GameOvers::Winner => {
            let mut text = "Player ".to_owned();
            let digits = decimal_text(event.player.unwrap());
            text.append(digits.as_str());
            text.append(" won");
            text
        },
        GameOvers::Tie => "It's a tie!".to_owned(),
    }
}

/// The match after the systems of the phase ran: the enter key asks for the
/// menu, the space bar for a new match, and the space bar has the last word.
pub open spec fn after(schedule: Schedule, game: Game, input: Input) -> Game {
    if schedule != Schedule::Update {
        game
    } else if input.pressed(KeyCode::Space) {
        Game { next_app_state: Some(AppStates::Loading), ..game }
    } else if input.pressed(KeyCode::Enter) {
        Game { next_app_state: Some(AppStates::Menu), ..game }
    } else {
        game
    }
}

/// Runs the systems of the phase of a decided match that are due on
/// `schedule`.
pub fn plugin(
    schedule: Schedule,
    game: &mut Game,
    input: &Input,
    chance: &Chance,
    events: &mut Vec<Event>,
)
    ensures
        *final(game) == after(schedule, *old(game), *input),
        final(events).deep_view() == old(events).deep_view(),
{
    match schedule {
        Schedule::Update => {
            wait_for_input_to_exit_game(input, &mut game.next_app_state);
            wait_for_input_to_start_new_game(input, &mut game.next_app_state);
        },
        _ => {},
    }
}

} // verus!
