//! The rounding-up phase: the match is decided or the next round prepared.

use crate::game::chance::Chance;
use crate::game::components::{Bullets, Dodges, Player, PlayerState, PlayerStates};
use crate::game::events::{
    emit, emit_all, tick, tick_player, Event, EventKind, EventView, GameOverEvent, GameOvers,
    PlayerStateChangeEvent,
};
use crate::game::input::Input;
use crate::game::resources::{GameOver, RoundCounter};
use crate::game::settings::{N_MAX_ROUND, RESTORE_THRESHOLD};
use crate::game::systems::in_game::next_play_state;
use crate::game::systems::{all, events_empty, spec_all, spec_events_empty, Schedule};
use crate::game::Game;
use vstd::prelude::*;

verus! {

/// Whether the match is still open.
pub fn is_not_game_over(game_over: &GameOver) -> (open: bool)
    ensures
        open == !game_over.0,
{
    !game_over.0
}

/// How a match ends on deaths: a tie where both players are dead, a win of
/// the other player where one is, and not at all where both live.
pub open spec fn death_verdict(player_one: Player, player_two: Player) -> Option<GameOverEvent> {
    if player_one.is_dead() && player_two.is_dead() {
        Some(GameOverEvent::tie())
    } else if player_one.is_dead() {
        Some(GameOverEvent::won_by(player_two.value))
    } else if player_two.is_dead() {
        Some(GameOverEvent::won_by(player_one.value))
    } else {
        None
    }
}

/// How a match ends on health: a win of the player with more health, a tie
/// where both have the same.
pub open spec fn health_verdict(player_one: Player, player_two: Player) -> GameOverEvent {
    if player_one.health.value < player_two.health.value {
        GameOverEvent::won_by(player_two.value)
    } else if player_one.health.value == player_two.health.value {
        GameOverEvent::tie()
    } else {
        GameOverEvent::won_by(player_one.value)
    }
}

/// The events that tell of an outcome: one event where the match has an
/// outcome, and none where it has not.
pub open spec fn verdict_events(verdict: Option<GameOverEvent>) -> Seq<EventView> {
    match verdict {
        Some(event) => seq![EventView::GameOver(event)],
        None => seq![],
    }
}

fn decide_on_health(player_one: &Player, player_two: &Player) -> (event: GameOverEvent)
    ensures
        event == health_verdict(*player_one, *player_two),
{
    if player_one.health.value < player_two.health.value {
        GameOverEvent { player: Some(player_two.value), state: GameOvers::Winner }
    } else if player_one.health.value == player_two.health.value {
        GameOverEvent { player: None, state: GameOvers::Tie }
    } else {
        GameOverEvent { player: Some(player_one.value), state: GameOvers::Winner }
    }
}

/// Ends the match where a player is dead.
pub fn check_if_dead(player_one: &Player, player_two: &Player, game_over: &mut GameOver) -> (events:
    Vec<Event>)
    ensures
        events.deep_view() == verdict_events(death_verdict(*player_one, *player_two)),
        final(game_over).0 == (old(game_over).0 || death_verdict(*player_one, *player_two)
            is Some),
{
    let mut events: Vec<Event> = Vec::new();
    assert(events.deep_view() =~= Seq::<EventView>::empty());
    let dead = (player_one.is_dead(), player_two.is_dead());
    match dead {
        (true, true) => {
            emit(
                &mut events,
                Event::GameOver(GameOverEvent { player: None, state: GameOvers::Tie }),
            );
            game_over.0 = true;
        },
        (true, false) => {
            emit(
                &mut events,
                Event::GameOver(
                    GameOverEvent { player: Some(player_two.value), state: GameOvers::Winner },
                ),
            );
            game_over.0 = true;
        },
        (false, true) => {
            emit(
                &mut events,
                Event::GameOver(
                    GameOverEvent { player: Some(player_one.value), state: GameOvers::Winner },
                ),
            );
            game_over.0 = true;
        },
        (false, false) => {},
    }
    assert(events.deep_view() =~= verdict_events(death_verdict(*player_one, *player_two)));
    events
}

/// How a match ends on the round limit: on health where the round is the
/// last one, and not at all before.
pub open spec fn round_verdict(player_one: Player, player_two: Player, round: RoundCounter) -> Option<
    GameOverEvent,
> {
    if round.0 == N_MAX_ROUND {
        Some(health_verdict(player_one, player_two))
    } else {
        None
    }
}

/// Ends the match where the last round was played.
pub fn check_if_no_more_rounds(
    player_one: &Player,
    player_two: &Player,
    game_over: &mut GameOver,
    round: &RoundCounter,
) -> (events: Vec<Event>)
    ensures
        events.deep_view() == verdict_events(round_verdict(*player_one, *player_two, *round)),
        final(game_over).0 == (old(game_over).0 || round.0 == N_MAX_ROUND),
{
    let mut events: Vec<Event> = Vec::new();
    assert(events.deep_view() =~= Seq::<EventView>::empty());
    if round.0 == N_MAX_ROUND {
        game_over.0 = true;
        emit(&mut events, Event::GameOver(decide_on_health(player_one, player_two)));
    }
    assert(events.deep_view() =~= verdict_events(
        round_verdict(*player_one, *player_two, *round),
    ));
    events
}

/// Whether neither player has a bullet left.
pub open spec fn out_of_ammo(player_one: Player, player_two: Player) -> bool {
    player_one.bullets.value == 0 && player_two.bullets.value == 0
}

/// How a match ends on ammunition: on health where neither player has a
/// bullet left, and not at all while one has.
pub open spec fn ammo_verdict(player_one: Player, player_two: Player) -> Option<GameOverEvent> {
    if out_of_ammo(player_one, player_two) {
        Some(health_verdict(player_one, player_two))
    } else {
        None
    }
}

/// Ends the match where neither player has a bullet left.
pub fn check_if_out_of_ammo(
    player_one: &Player,
    player_two: &Player,
    game_over: &mut GameOver,
) -> (events: Vec<Event>)
    ensures
        events.deep_view() == verdict_events(ammo_verdict(*player_one, *player_two)),
        final(game_over).0 == (old(game_over).0 || out_of_ammo(*player_one, *player_two)),
{
    let mut events: Vec<Event> = Vec::new();
    assert(events.deep_view() =~= Seq::<EventView>::empty());
    if player_one.bullets.value == 0 && player_two.bullets.value == 0 {
        game_over.0 = true;
        emit(&mut events, Event::GameOver(decide_on_health(player_one, player_two)));
    }
    assert(events.deep_view() =~= verdict_events(ammo_verdict(*player_one, *player_two)));
    events
}

/// Whether resources are won back after the round: after every second one.
pub open spec fn restores(round: RoundCounter) -> bool {
    round.0 % 2 == 0
}

/// Whether a luck roll wins a resource back.
pub open spec fn lucky(roll: u8) -> bool {
    roll >= RESTORE_THRESHOLD
}

/// The dodges of a player after the round, given their luck roll.
pub open spec fn restored(value: u8, round: RoundCounter, roll: u8) -> int {
    if restores(round) && lucky(roll) {
        value + 1
    } else {
        value as int
    }
}

/// The ticks that tell of the dodge a player won back, or did not.
pub open spec fn restore_dodge_ticks(player: u8, round: RoundCounter, roll: u8) -> Seq<
    EventView,
> {
    if !restores(round) {
        seq![]
    } else if lucky(roll) {
        seq![tick(player, "+1 dodge"@)]
    } else {
        seq![tick(player, "+0 dodge"@)]
    }
}

/// Gives a lucky player a dodge back after every second round.
pub fn restore_dodge(round_counter: &RoundCounter, player: &mut Player, roll: u8) -> (ticks: Vec<
    Event,
>)
    requires
        restored(old(player).dodges.value, *round_counter, roll) <= u8::MAX,
    ensures
        final(player).dodges.value == restored(old(player).dodges.value, *round_counter, roll),
        *final(player) == (Player { dodges: final(player).dodges, ..*old(player) }),
        ticks.deep_view() == restore_dodge_ticks(old(player).value, *round_counter, roll),
{
    let mut ticks: Vec<Event> = Vec::new();
    assert(ticks.deep_view() =~= Seq::<EventView>::empty());
    if round_counter.0 % 2 == 0 {
        if roll >= RESTORE_THRESHOLD {
            player.dodges.value = player.dodges.value + 1;
            emit(&mut ticks, tick_player(player.value, "+1 dodge"));
        } else {
            emit(&mut ticks, tick_player(player.value, "+0 dodge"));
        }
    }
    assert(ticks.deep_view() =~= restore_dodge_ticks(old(player).value, *round_counter, roll));
    ticks
}

/// The ticks that tell of the bullet a player won back, or did not.
pub open spec fn restore_bullet_ticks(player: u8, round: RoundCounter, roll: u8) -> Seq<
    EventView,
> {
    if !restores(round) {
        seq![]
    } else if lucky(roll) {
        seq![tick(player, "\n+1 bullet"@)]
    } else {
        seq![tick(player, "\n+0 bullet"@)]
    }
}

/// Gives a lucky player a bullet back after every second round.
pub fn restore_bullet(round_counter: &RoundCounter, player: &mut Player, roll: u8) -> (ticks: Vec<
    Event,
>)
    requires
        restored(old(player).bullets.value, *round_counter, roll) <= u8::MAX,
    ensures
        final(player).bullets.value == restored(old(player).bullets.value, *round_counter, roll),
        *final(player) == (Player { bullets: final(player).bullets, ..*old(player) }),
        ticks.deep_view() == restore_bullet_ticks(old(player).value, *round_counter, roll),
{
    let mut ticks: Vec<Event> = Vec::new();
    assert(ticks.deep_view() =~= Seq::<EventView>::empty());
    if round_counter.0 % 2 == 0 {
        if roll >= RESTORE_THRESHOLD {
            player.bullets.value = player.bullets.value + 1;
            emit(&mut ticks, tick_player(player.value, "\n+1 bullet"));
        } else {
            emit(&mut ticks, tick_player(player.value, "\n+0 bullet"));
        }
    }
    assert(ticks.deep_view() =~= restore_bullet_ticks(old(player).value, *round_counter, roll));
    ticks
}

/// Takes the bet of the player back and reports it.
pub fn prepare_player_for_next_round(player: &mut Player) -> (event: Event)
    ensures
        *final(player) == (Player { state: PlayerState(PlayerStates::Idle), ..*old(player) }),
        event@ == EventView::PlayerStateChange(
            PlayerStateChangeEvent { player: old(player).value },
        ),
{
    player.state.0 = PlayerStates::Idle;
    Event::PlayerStateChange(PlayerStateChangeEvent { player: player.value })
}

/// Counts the round that was played.
pub fn increase_round_counter(round_counter: &mut RoundCounter)
    requires
        old(round_counter).0 < u8::MAX,
    ensures
        final(round_counter).0 == old(round_counter).0 + 1,
{
    round_counter.0 = round_counter.0 + 1;
}

/// Whether every tick on the screen has faded.
pub fn check_rounding_up_phase_ended(faded: &Vec<bool>) -> (ended: bool)
    ensures
        ended == spec_all(faded@),
{
    all(faded)
}

/// How the match ends as the phase begins: not at all where it is over
/// already; else on deaths, then on the round limit, then on ammunition,
/// whichever decides first.
pub open spec fn verdict(game: Game) -> Option<GameOverEvent> {
    if game.game_over.0 {
        None
    } else if death_verdict(game.player_one, game.player_two) is Some {
        death_verdict(game.player_one, game.player_two)
    } else if round_verdict(game.player_one, game.player_two, game.round_counter) is Some {
        round_verdict(game.player_one, game.player_two, game.round_counter)
    } else {
        ammo_verdict(game.player_one, game.player_two)
    }
}

/// The match is decided once: as the phase begins, the latch is set where
/// the match was decided before or is decided now, and a match that is
/// decided now is told so by one event. A match that was decided before is
/// told nothing.
pub proof fn lemma_decided_once(game: Game, input: Input, chance: Chance, seen: Seq<EventView>)
    ensures
        after(Schedule::OnEnter, game, input, chance, seen).game_over.0 == (game.game_over.0
            || verdict(game) is Some),
        verdict(game) is Some ==> emitted(Schedule::OnEnter, game, chance) == seq![
            EventView::GameOver(verdict(game)->0),
        ],
        game.game_over.0 ==> emitted(Schedule::OnEnter, game, chance) == Seq::<
            EventView,
        >::empty(),
        spec_events_empty(emitted(Schedule::OnEnter, game, chance), EventKind::GameOver)
            == verdict(game) is None,
{
    if verdict(game) is Some {
        let told = emitted(Schedule::OnEnter, game, chance);
        assert(told[0].kind() == EventKind::GameOver);
    }
}

/// Whether the match goes on after the phase began.
pub open spec fn continues(game: Game) -> bool {
    !game.game_over.0 && verdict(game) is None
}

/// Works out whether the match goes on after the phase began.
pub fn will_continue(game: &Game) -> (goes_on: bool)
    ensures
        goes_on == continues(*game),
{
    !game.game_over.0 && !game.player_one.is_dead() && !game.player_two.is_dead()
        && game.round_counter.0 != N_MAX_ROUND && !(game.player_one.bullets.value == 0
        && game.player_two.bullets.value == 0)
}

/// The player after the round, given their luck in winning a bullet and a
/// dodge back.
pub open spec fn rested(player: Player, round: RoundCounter, bullet_roll: u8, dodge_roll: u8) -> Player {
    Player {
        bullets: Bullets { value: restored(player.bullets.value, round, bullet_roll) as u8 },
        dodges: Dodges { value: restored(player.dodges.value, round, dodge_roll) as u8 },
        ..player
    }
}

/// Whether the numbers of the player leave room for what they may win back.
pub open spec fn can_rest(player: Player, round: RoundCounter, bullet_roll: u8, dodge_roll: u8) -> bool {
    &&& restored(player.bullets.value, round, bullet_roll) <= u8::MAX
    &&& restored(player.dodges.value, round, dodge_roll) <= u8::MAX
}

/// Whether the systems of the phase that are due on `schedule` can run: as
/// the phase begins, the numbers of the players leave room for what they
/// may win back, and as it ends, the round can be counted.
pub open spec fn ready(schedule: Schedule, game: Game, chance: Chance) -> bool {
    match schedule {
        Schedule::OnEnter => continues(game) ==> {
            &&& can_rest(
                game.player_one,
                game.round_counter,
                chance.bullet_rolls.0,
                chance.dodge_rolls.0,
            )
            &&& can_rest(
                game.player_two,
                game.round_counter,
                chance.bullet_rolls.1,
                chance.dodge_rolls.1,
            )
        },
        Schedule::Update => true,
        Schedule::OnExit => !game.game_over.0 ==> game.round_counter.0 < u8::MAX,
    }
}

fn resting_fits(value: u8, round: &RoundCounter, roll: u8) -> (fits: bool)
    ensures
        fits == (restored(value, *round, roll) <= u8::MAX),
{
    !(round.0 % 2 == 0 && roll >= RESTORE_THRESHOLD) || value < u8::MAX
}

/// Works out whether the systems of the phase that are due on `schedule`
/// can run.
pub fn is_ready(schedule: Schedule, game: &Game, chance: &Chance) -> (is_ready: bool)
    ensures
        is_ready == ready(schedule, *game, *chance),
{
    match schedule {
        Schedule::OnEnter => {
            !will_continue(game) || (resting_fits(
                game.player_one.bullets.value,
                &game.round_counter,
                chance.bullet_rolls.0,
            ) && resting_fits(
                game.player_one.dodges.value,
                &game.round_counter,
                chance.dodge_rolls.0,
            ) && resting_fits(
                game.player_two.bullets.value,
                &game.round_counter,
                chance.bullet_rolls.1,
            ) && resting_fits(
                game.player_two.dodges.value,
                &game.round_counter,
                chance.dodge_rolls.1,
            ))
        },
        Schedule::Update => true,
        Schedule::OnExit => game.game_over.0 || game.round_counter.0 < u8::MAX,
    }
}

/// Whether the phase is over in a frame that has seen `events`: the match
/// is open, every tick on the screen has faded, and the frame brought no
/// tick.
pub open spec fn ended(game: Game, faded: Seq<bool>, events: Seq<EventView>) -> bool {
    &&& !game.game_over.0
    &&& spec_all(faded)
    &&& spec_events_empty(events, EventKind::TickPlayer)
}

/// The match after the systems of the phase ran.
///
/// As the phase begins the match is decided, or the players win resources
/// back. An open match asks for the next phase once the phase is over, and
/// as the phase ends it takes the bets back and counts the round. A decided
/// match stays as it is.
pub open spec fn after(schedule: Schedule, game: Game, input: Input, chance: Chance, seen: Seq<
    EventView,
>) -> Game {
    match schedule {
        Schedule::OnEnter => if continues(game) {
            Game {
                player_one: rested(
                    game.player_one,
                    game.round_counter,
                    chance.bullet_rolls.0,
                    chance.dodge_rolls.0,
                ),
                player_two: rested(
                    game.player_two,
                    game.round_counter,
                    chance.bullet_rolls.1,
                    chance.dodge_rolls.1,
                ),
                ..game
            }
        } else {
            Game { game_over: GameOver(true), ..game }
        },
        Schedule::Update => if ended(game, input.ticks_faded@, seen) {
            Game { next_play_state: Some(game.play_state.next()), ..game }
        } else {
            game
        },
        Schedule::OnExit => if game.game_over.0 {
            game
        } else {
            Game {
                player_one: Player {
                    state: PlayerState(PlayerStates::Idle),
                    ..game.player_one
                },
                player_two: Player {
                    state: PlayerState(PlayerStates::Idle),
                    ..game.player_two
                },
                round_counter: RoundCounter((game.round_counter.0 + 1) as u8),
                ..game
            }
        },
    }
}

/// The events of the systems of the phase.
///
/// As the phase begins: the verdict, or for an open match the bullets won
/// back and then the dodges won back, those of player one first. As the
/// phase ends: the bets taken back, for an open match.
pub open spec fn emitted(schedule: Schedule, game: Game, chance: Chance) -> Seq<EventView> {
    match schedule {
        Schedule::OnEnter => if continues(game) {
            restore_bullet_ticks(game.player_one.value, game.round_counter, chance.bullet_rolls.0)
                + restore_bullet_ticks(
                game.player_two.value,
                game.round_counter,
                chance.bullet_rolls.1,
            ) + restore_dodge_ticks(
                game.player_one.value,
                game.round_counter,
                chance.dodge_rolls.0,
            ) + restore_dodge_ticks(
                game.player_two.value,
                game.round_counter,
                chance.dodge_rolls.1,
            )
        } else {
            verdict_events(verdict(game))
        },
        Schedule::Update => seq![],
        Schedule::OnExit => if game.game_over.0 {
            seq![]
        } else {
            seq![
                EventView::PlayerStateChange(
                    PlayerStateChangeEvent { player: game.player_one.value },
                ),
                EventView::PlayerStateChange(
                    PlayerStateChangeEvent { player: game.player_two.value },
                ),
            ]
        },
    }
}

/// A decided match rests: no system of the phase changes it or tells
/// anything of it.
pub proof fn lemma_decided_match_rests(
    schedule: Schedule,
    game: Game,
    input: Input,
    chance: Chance,
    seen: Seq<EventView>,
)
    requires
        game.game_over.0,
    ensures
        after(schedule, game, input, chance, seen) == game,
        emitted(schedule, game, chance) == Seq::<EventView>::empty(),
        ready(schedule, game, chance),
{
}

/// Runs the systems of the rounding-up phase that are due on `schedule`.
pub fn plugin(
    schedule: Schedule,
    game: &mut Game,
    input: &Input,
    chance: &Chance,
    events: &mut Vec<Event>,
)
    requires
        ready(schedule, *old(game), *chance),
    ensures
        *final(game) == after(schedule, *old(game), *input, *chance, old(events).deep_view()),
        final(events).deep_view() == old(events).deep_view() + emitted(
            schedule,
            *old(game),
            *chance,
        ),
{
    let ghost seen = events.deep_view();
    match schedule {
        Schedule::OnEnter => {
            if is_not_game_over(&game.game_over) {
                let dead = check_if_dead(&game.player_one, &game.player_two, &mut game.game_over);
                emit_all(events, dead);
            }
            if is_not_game_over(&game.game_over) {
                let late = check_if_no_more_rounds(
                    &game.player_one,
                    &game.player_two,
                    &mut game.game_over,
                    &game.round_counter,
                );
                emit_all(events, late);
            }
            if is_not_game_over(&game.game_over) {
                let dry = check_if_out_of_ammo(
                    &game.player_one,
                    &game.player_two,
                    &mut game.game_over,
                );
                emit_all(events, dry);
            }
            if is_not_game_over(&game.game_over) {
                let first = restore_bullet(
                    &game.round_counter,
                    &mut game.player_one,
                    chance.bullet_rolls.0,
                );
                emit_all(events, first);
                let second = restore_bullet(
                    &game.round_counter,
                    &mut game.player_two,
                    chance.bullet_rolls.1,
                );
                emit_all(events, second);
            }
            if is_not_game_over(&game.game_over) {
                let first = restore_dodge(
                    &game.round_counter,
                    &mut game.player_one,
                    chance.dodge_rolls.0,
                );
                emit_all(events, first);
                let second = restore_dodge(
                    &game.round_counter,
                    &mut game.player_two,
                    chance.dodge_rolls.1,
                );
                emit_all(events, second);
            }
            assert(events.deep_view() =~= seen + emitted(schedule, *old(game), *chance));
        },
        Schedule::Update => {
            if is_not_game_over(&game.game_over) && check_rounding_up_phase_ended(
                &input.ticks_faded,
            ) && events_empty(events, EventKind::TickPlayer) {
                next_play_state(&game.play_state, &mut game.next_play_state);
            }
            assert(events.deep_view() =~= seen + Seq::<EventView>::empty());
        },
        Schedule::OnExit => {
            if is_not_game_over(&game.game_over) {
                let first = prepare_player_for_next_round(&mut game.player_one);
                emit(events, first);
                let second = prepare_player_for_next_round(&mut game.player_two);
                emit(events, second);
                increase_round_counter(&mut game.round_counter);
            }
            assert(events.deep_view() =~= seen + emitted(schedule, *old(game), *chance));
        },
    }
}

} // verus!
