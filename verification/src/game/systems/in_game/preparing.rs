//! The preparing phase: the players get ready for the round.

use crate::game::chance::Chance;
use crate::game::events::{emit, emit_all, AlertEvent, Event, EventView};
use crate::game::input::{Input, KeyCode};
use crate::game::resources::RoundCounter;
use crate::game::settings::N_MAX_ROUND;
use crate::game::systems::in_game::wait_for_input_to_next_play_state;
use crate::game::systems::Schedule;
use crate::game::Game;
use vstd::prelude::*;

verus! {

/// The alert before the last round, and nothing before any other.
pub open spec fn last_round_alert(round: RoundCounter) -> Seq<EventView> {
    if round.0 == N_MAX_ROUND {
        seq![EventView::Alert { value: "Last round!"@ }]
    } else {
        seq![]
    }
}

/// Tells the players that the round about to begin is the last one.
pub fn check_if_last_round(round: &RoundCounter) -> (events: Vec<Event>)
    ensures
        events.deep_view() == last_round_alert(*round),
{
    let mut events: Vec<Event> = Vec::new();
    assert(events.deep_view() =~= Seq::<EventView>::empty());
    if round.0 == N_MAX_ROUND {
        emit(&mut events, Event::Alert(AlertEvent { value: "Last round!".to_owned() }));
    }
    assert(events.deep_view() =~= last_round_alert(*round));
    events
}

/// The match after the systems of the phase ran: the phase waits for the
/// space bar and then asks for the next phase.
pub open spec fn after(schedule: Schedule, game: Game, input: Input) -> Game {
    if schedule == Schedule::Update && input.pressed(KeyCode::Space) {
        Game { next_play_state: Some(game.play_state.next()), ..game }
    } else {
        game
    }
}

/// The events of the systems of the phase: the alert before the last round,
/// as the phase begins.
pub open spec fn emitted(schedule: Schedule, game: Game) -> Seq<EventView> {
    if schedule == Schedule::OnEnter {
        last_round_alert(game.round_counter)
    } else {
        seq![]
    }
}

/// Runs the systems of the preparing phase that are due on `schedule`.
pub fn plugin(
    schedule: Schedule,
    game: &mut Game,
    input: &Input,
    chance: &Chance,
    events: &mut Vec<Event>,
)
    ensures
        *final(game) == after(schedule, *old(game), *input),
        final(events).deep_view() == old(events).deep_view() + emitted(schedule, *old(game)),
{
    match schedule {
        Schedule::OnEnter => {
            emit_all(events, check_if_last_round(&game.round_counter));
        },
        Schedule::Update => {
            wait_for_input_to_next_play_state(input, &game.play_state, &mut game.next_play_state);
            assert(events.deep_view() =~= old(events).deep_view() + Seq::<EventView>::empty());
        },
        Schedule::OnExit => {
            assert(events.deep_view() =~= old(events).deep_view() + Seq::<EventView>::empty());
        },
    }
}

} // verus!
