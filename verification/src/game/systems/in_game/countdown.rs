//! The countdown phase: a fixed time before the bets open.

use crate::game::chance::Chance;
use crate::game::events::Event;
use crate::game::input::Input;
use crate::game::resources::CountdownTimer;
use crate::game::states::PlayStates;
use crate::game::systems::Schedule;
use crate::game::Game;
use vstd::prelude::*;

verus! {

/// Advances the timer of the phase by a frame. In the frame in which it runs
/// out, asks for the phase that follows `play_state` and sets the timer back
/// for the next round.
pub fn countdown(
    play_state: &PlayStates,
    next_play_state: &mut Option<PlayStates>,
    delta: u64,
    countdown_timer: &mut CountdownTimer,
)
    ensures
        final(countdown_timer).0 == (if old(countdown_timer).0.spec_tick(delta).done_this_tick {
            old(countdown_timer).0.spec_reset()
        } else {
            old(countdown_timer).0.spec_tick(delta)
        }),
        *final(next_play_state) == (if old(countdown_timer).0.spec_tick(delta).done_this_tick {
            Some(play_state.next())
        } else {
            *old(next_play_state)
        }),
{
    countdown_timer.0.tick(delta);
    if countdown_timer.0.just_finished() {
        *next_play_state = Some(play_state.next());
        countdown_timer.0.reset()
    }
}

/// Sets the timer of the phase back to its start.
pub fn reset_countdown_timer(countdown_timer: &mut CountdownTimer)
    ensures
        final(countdown_timer).0 == old(countdown_timer).0.spec_reset(),
{
    countdown_timer.0.reset()
}

/// The match after the systems of the phase ran: the timer starts anew as
/// the phase begins, and each frame moves it on until it asks for the next
/// phase.
pub open spec fn after(schedule: Schedule, game: Game, input: Input) -> Game {
    match schedule {
        Schedule::OnEnter => Game {
            countdown_timer: CountdownTimer(game.countdown_timer.0.spec_reset()),
            ..game
        },
        Schedule::Update => {
            let ticked = game.countdown_timer.0.spec_tick(input.delta);
            if ticked.done_this_tick {
                Game {
                    countdown_timer: CountdownTimer(ticked.spec_reset()),
                    next_play_state: Some(game.play_state.next()),
                    ..game
                }
            } else {
                Game { countdown_timer: CountdownTimer(ticked), ..game }
            }
        },
        Schedule::OnExit => game,
    }
}

/// Runs the systems of the countdown phase that are due on `schedule`.
pub fn plugin(
    schedule: Schedule,
    game: &mut Game,
    input: &Input,
    chance: &Chance,
    events: &mut Vec<Event>,
)
    ensures
        *final(game) == after(schedule, *old(game), *input),
        final(events).deep_view() == old(events).deep_view(),
{
    match schedule {
        Schedule::OnEnter => {
            reset_countdown_timer(&mut game.countdown_timer);
        },
        Schedule::Update => {
            countdown(
                &game.play_state,
                &mut game.next_play_state,
                input.delta,
                &mut game.countdown_timer,
            );
        },
        Schedule::OnExit => {},
    }
}

} // verus!
