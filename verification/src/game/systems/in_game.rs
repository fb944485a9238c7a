//! The systems of a running match, phase by phase.

pub mod betting;
pub mod countdown;
pub mod fighting;
pub mod game_over;
pub mod preparing;
pub mod rounding_up;

use crate::game::chance::Chance;
use crate::game::components::{Bullets, Dodges, Health, Player};
use crate::game::events::{Event, EventView};
use crate::game::input::{Input, KeyCode};
use crate::game::resources::{GameOver, RoundCounter};
use crate::game::settings::{player_one_keys, player_two_keys};
use crate::game::states::PlayStates;
use crate::game::systems::{Frame, Schedule};
use crate::game::Game;
use vstd::prelude::*;

verus! {

/// Sets the match back to its first round and opens it again.
pub fn reset_game(rounds: &mut RoundCounter, game_over: &mut GameOver)
    ensures
        final(rounds).0 == 1,
        !final(game_over).0,
{
    rounds.0 = 1;
    game_over.0 = false;
}

/// Asks for the phase outside a match.
pub fn pause_game(next_play_state: &mut Option<PlayStates>)
    ensures
        *final(next_play_state) == Some(PlayStates::Paused),
{
    *next_play_state = Some(PlayStates::Paused);
}

/// Asks for the first phase of a match, the countdown.
pub fn launch_game(next_play_state: &mut Option<PlayStates>)
    ensures
        *final(next_play_state) == Some(PlayStates::Countdown),
{
    *next_play_state = Some(PlayStates::Countdown);
}

/// The two players as a match starts, with their default keys.
pub fn spawn_players() -> (players: (Player, Player))
    ensures
        players.0 == Player::new(1, player_one_keys()),
        players.1 == Player::new(2, player_two_keys()),
{
    (Player::new(1, player_one_keys()), Player::new(2, player_two_keys()))
}

/// Asks for the phase that follows `play_state`.
pub fn next_play_state(play_state: &PlayStates, next_play_state: &mut Option<PlayStates>)
    ensures
        *final(next_play_state) == Some(play_state.next()),
{
    *next_play_state = Some(play_state.next());
}

/// Asks for the phase that follows `play_state` where the space bar went
/// down.
pub fn wait_for_input_to_next_play_state(
    input: &Input,
    play_state: &PlayStates,
    next_play_state: &mut Option<PlayStates>,
)
    ensures
        *final(next_play_state) == (if input.pressed(KeyCode::Space) {
            Some(play_state.next())
        } else {
            *old(next_play_state)
        }),
{
    if input.pressed(KeyCode::Space) {
        *next_play_state = Some(play_state.next());
    }
}

/// Whether one of `events` says that the match is over.
pub open spec fn announces_game_over(events: Seq<EventView>) -> bool {
    exists|i: int| 0 <= i < events.len() && #[trigger] events[i] is GameOver
}

/// Asks for the phase of a decided match where one of `events` says that the
/// match is over.
pub fn listen_game_overs(events: &Vec<Event>, next_play_state: &mut Option<PlayStates>)
    ensures
        *final(next_play_state) == (if announces_game_over(events.deep_view()) {
            Some(PlayStates::GameOver)
        } else {
            *old(next_play_state)
        }),
{
    let ghost all = events.deep_view();
    let mut i: usize = 0;
    while i < events.len()
        invariant
            i <= events.len(),
            all == events.deep_view(),
            all.len() == events.len(),
            forall|j: int| 0 <= j < i ==> !(#[trigger] all[j] is GameOver),
            *next_play_state == *old(next_play_state),
        decreases events.len() - i,
    {
        match &events[i] {
            Event::GameOver(_) => {
                assert(all[i as int] is GameOver);
                *next_play_state = Some(PlayStates::GameOver);
                return ;
            },
            _ => {},
        }
        i = i + 1;
    }
}

/// The picture of a bar for a resource of which a player has `value`: the
/// full bar is picture 0, and each unit that is missing of three moves one
/// picture on.
pub open spec fn bar_index(value: u8) -> usize {
    if value >= 3 {
        0
    } else {
        (3 - value) as usize
    }
}

fn bar(value: u8) -> (index: usize)
    ensures
        index == bar_index(value),
{
    let missing: u8 = 3;
    let missing = missing.checked_sub(value).unwrap_or(0);
    missing as usize
}

/// The picture of the health bar of a player.
pub fn health_bar_update(health: &Health) -> (index: usize)
    ensures
        index == bar_index(health.value),
{
    bar(health.value)
}

/// The picture of the bar of bullets of a player.
pub fn mana_bar_update(bullets: &Bullets) -> (index: usize)
    ensures
        index == bar_index(bullets.value),
{
    bar(bullets.value)
}

/// The picture of the bar of dodges of a player.
pub fn stamina_bar_update(dodges: &Dodges) -> (index: usize)
    ensures
        index == bar_index(dodges.value),
{
    bar(dodges.value)
}

/// Whether the systems of `play_state` that are due on `schedule` can run.
#[verifier::opaque]
pub open spec fn phase_ready(
    play_state: PlayStates,
    schedule: Schedule,
    game: Game,
    chance: Chance,
) -> bool {
    match play_state {
        PlayStates::Betting => betting::ready(schedule, game, chance),
        PlayStates::RoundingUp => rounding_up::ready(schedule, game, chance),
        _ => true,
    }
}

/// Works out whether the systems of `play_state` that are due on `schedule`
/// can run.
pub fn phase_is_ready(
    play_state: PlayStates,
    schedule: Schedule,
    game: &Game,
    chance: &Chance,
) -> (is_ready: bool)
    ensures
        is_ready == phase_ready(play_state, schedule, *game, *chance),
{
    reveal(phase_ready);
    match play_state {
        PlayStates::Betting => betting::is_ready(schedule, game, chance),
        PlayStates::RoundingUp => rounding_up::is_ready(schedule, game, chance),
        _ => true,
    }
}

/// The frame after the systems of `play_state` that are due on `schedule`
/// ran. `Paused` has no systems.
#[verifier::opaque]
pub open spec fn phase_step(
    play_state: PlayStates,
    schedule: Schedule,
    frame: Frame,
    input: Input,
    chance: Chance,
) -> Frame {
    let game = frame.game;
    let seen = frame.events;
    match play_state {
        PlayStates::Paused => frame,
        PlayStates::Preparing => Frame {
            game: preparing::after(schedule, game, input),
            events: seen + preparing::emitted(schedule, game),
            ..frame
        },
        PlayStates::Countdown => Frame { game: countdown::after(schedule, game, input), ..frame },
        PlayStates::Betting => Frame {
            game: betting::after(schedule, game, input, chance),
            events: seen + betting::emitted(schedule, game, input, chance),
            ..frame
        },
        PlayStates::Fighting => Frame {
            game: fighting::after(schedule, game, input, seen),
            events: seen + fighting::emitted(schedule, game, chance, seen),
            ..frame
        },
        PlayStates::RoundingUp => Frame {
            game: rounding_up::after(schedule, game, input, chance, seen),
            events: seen + rounding_up::emitted(schedule, game, chance),
            ..frame
        },
        PlayStates::GameOver => Frame { game: game_over::after(schedule, game, input), ..frame },
    }
}

/// Runs the systems of `play_state` that are due on `schedule`.
pub fn phase(
    play_state: PlayStates,
    schedule: Schedule,
    game: &mut Game,
    input: &Input,
    chance: &Chance,
    events: &mut Vec<Event>,
)
    requires
        phase_ready(play_state, schedule, *old(game), *chance),
    ensures
        phase_step(
            play_state,
            schedule,
            Frame { game: *old(game), events: old(events).deep_view() },
            *input,
            *chance,
        ) == (Frame { game: *final(game), events: final(events).deep_view() }),
{
    reveal(phase_ready);
    reveal(phase_step);
    match play_state {
        PlayStates::Paused => {},
        PlayStates::Preparing => preparing::plugin(schedule, game, input, chance, events),
        PlayStates::Countdown => countdown::plugin(schedule, game, input, chance, events),
        PlayStates::Betting => betting::plugin(schedule, game, input, chance, events),
        PlayStates::Fighting => fighting::plugin(schedule, game, input, chance, events),
        PlayStates::RoundingUp => rounding_up::plugin(schedule, game, input, chance, events),
        PlayStates::GameOver => game_over::plugin(schedule, game, input, chance, events),
    }
}

/// The frame after the systems of a running match that are due on
/// `schedule` ran.
///
/// As the match comes up, the two players are set up and the countdown is
/// asked for. Each frame runs the systems of the phase and then asks for the
/// phase of a decided match if the frame has told that the match is over. As
/// the match goes, the phase outside a match is asked for and the match is
/// set back.
#[verifier::opaque]
pub open spec fn step(schedule: Schedule, frame: Frame, input: Input, chance: Chance) -> Frame {
    match schedule {
        Schedule::OnEnter => Frame {
            game: Game {
                player_one: Player::new(1, player_one_keys()),
                player_two: Player::new(2, player_two_keys()),
                next_play_state: Some(PlayStates::Countdown),
                ..frame.game
            },
            ..frame
        },
        Schedule::Update => {
            let run = phase_step(frame.game.play_state, schedule, frame, input, chance);
            if announces_game_over(run.events) {
                Frame {
                    game: Game { next_play_state: Some(PlayStates::GameOver), ..run.game },
                    ..run
                }
            } else {
                run
            }
        },
        Schedule::OnExit => Frame {
            game: Game {
                next_play_state: Some(PlayStates::Paused),
                round_counter: RoundCounter(1),
                game_over: GameOver(false),
                ..frame.game
            },
            ..frame
        },
    }
}

/// Whether the systems of a running match that are due on `schedule` can
/// run.
#[verifier::opaque]
pub open spec fn ready(schedule: Schedule, game: Game, chance: Chance) -> bool {
    schedule == Schedule::Update ==> phase_ready(game.play_state, schedule, game, chance)
}

/// Runs the systems of a running match that are due on `schedule`.
pub fn plugin(
    schedule: Schedule,
    game: &mut Game,
    input: &Input,
    chance: &Chance,
    events: &mut Vec<Event>,
)
    requires
        ready(schedule, *old(game), *chance),
    ensures
        step(
            schedule,
            Frame { game: *old(game), events: old(events).deep_view() },
            *input,
            *chance,
        ) == (Frame { game: *final(game), events: final(events).deep_view() }),
{
    reveal(ready);
    reveal(step);
    match schedule {
        Schedule::OnEnter => {
            let players = spawn_players();
            game.player_one = players.0;
            game.player_two = players.1;
            launch_game(&mut game.next_play_state);
        },
        Schedule::Update => {
            phase(game.play_state, schedule, game, input, chance, events);
            listen_game_overs(events, &mut game.next_play_state);
        },
        Schedule::OnExit => {
            pause_game(&mut game.next_play_state);
            reset_game(&mut game.round_counter, &mut game.game_over);
        },
    }
}

} // verus!
