//! The match: its data, its events and the systems that advance it.

pub mod chance;
pub mod components;
pub mod events;
pub mod input;
pub mod resources;
pub mod rng;
pub mod settings;
pub mod states;
pub mod systems;

use self::chance::Chance;
use self::components::Player;
use self::events::{Event, EventView};
use self::input::{Input, LoadState};
use self::resources::assets::Asset;
use self::resources::{AssetsLoading, BettingTimer, CountdownTimer, GameOver, RoundCounter, Timer};
use self::settings::{
    player_one_keys, player_two_keys, DEFAULT_BETTING_TIMER, DEFAULT_COUNTDOWN_TIMER,
};
use self::states::{AppStates, PlayStates};
use self::systems::in_game::phase_is_ready;
use self::systems::loading::{
    get_loading_state, load, load_assets, loading_state, spec_none_failed,
};
use self::systems::{
    begun, can_begin, frame_loading, frame_ready, frame_step, leave, left, show, shown,
    shown_loading, started, turns, Frame, Schedule,
};
use vstd::prelude::*;

verus! {

/// A match and the screen around it: everything the systems read and write.
#[derive(Debug, Clone, Copy, PartialEq, Eq)]
pub struct Game {
    /// The screen that is shown.
    pub app_state: AppStates,
    /// The screen that was asked for and is shown from the next frame on.
    pub next_app_state: Option<AppStates>,
    /// The phase the match is in.
    pub play_state: PlayStates,
    /// The phase that was asked for and begins with the next frame.
    pub next_play_state: Option<PlayStates>,
    pub player_one: Player,
    pub player_two: Player,
    pub round_counter: RoundCounter,
    pub game_over: GameOver,
    pub betting_timer: BettingTimer,
    pub countdown_timer: CountdownTimer,
}

impl Game {
    /// What every frame relies on and keeps: the two players are player one
    /// and player two, and their dice can be thrown.
    pub open spec fn wf(&self) -> bool {
        &&& self.player_one.wf()
        &&& self.player_one.value == 1
        &&& self.player_two.wf()
        &&& self.player_two.value == 2
    }

    /// The application as it starts: the menu is shown, no match runs, and
    /// everything a match counts is at its start.
    pub open spec fn spec_new() -> Game {
        Game {
            app_state: AppStates::Menu,
            next_app_state: None,
            play_state: PlayStates::Paused,
            next_play_state: None,
            player_one: Player::new(1, player_one_keys()),
            player_two: Player::new(2, player_two_keys()),
            round_counter: RoundCounter(1),
            game_over: GameOver(false),
            betting_timer: BettingTimer(Timer::new(DEFAULT_BETTING_TIMER)),
            countdown_timer: CountdownTimer(Timer::new(DEFAULT_COUNTDOWN_TIMER)),
        }
    }

    /// Whether the numbers of the match are far enough from the largest
    /// number that whatever a frame adds to them fits.
    pub open spec fn spec_roomy(&self) -> bool {
        &&& self.player_one.roomy()
        &&& self.player_two.roomy()
        &&& self.round_counter.0 < u8::MAX
    }

    #[verifier::when_used_as_spec(spec_roomy)]
    pub fn roomy(&self) -> (roomy: bool)
        ensures
            roomy == self.spec_roomy(),
    {
        self.player_one.roomy() && self.player_two.roomy() && self.round_counter.0 < u8::MAX
    }

    /// Whether the next frame begins another phase than the one the match is
    /// in.
    pub open spec fn spec_turning(&self) -> bool {
        turns(*self, self.next_play_state)
    }

    #[verifier::when_used_as_spec(spec_turning)]
    pub fn turning(&self) -> (turning: bool)
        ensures
            turning == self.spec_turning(),
    {
        match self.next_play_state {
            Some(next) => next != self.play_state,
            None => false,
        }
    }

    /// Whether the next frame can run whatever the dice show, as far as the
    /// match tells: the match is well-formed, and a frame that begins
    /// another phase finds room in the numbers of the match.
    pub open spec fn spec_steady(&self) -> bool {
        self.wf() && (self.turning() ==> self.roomy())
    }

    #[verifier::when_used_as_spec(spec_steady)]
    pub fn steady(&self) -> (steady: bool)
        ensures
            steady == self.spec_steady(),
    {
        self.is_wf() && (!self.turning() || self.roomy())
    }

    /// Works out whether the match is well-formed.
    pub fn is_wf(&self) -> (wf: bool)
        ensures
            wf == self.wf(),
    {
        self.player_one.is_wf() && self.player_one.value == 1 && self.player_two.is_wf()
            && self.player_two.value == 2
    }

    #[verifier::when_used_as_spec(spec_new)]
    pub fn new() -> (game: Game)
        ensures
            game == Game::spec_new(),
            game.wf(),
    {
        Game {
            app_state: AppStates::default(),
            next_app_state: None,
            play_state: PlayStates::default(),
            next_play_state: None,
            player_one: Player::new(1, player_one_keys()),
            player_two: Player::new(2, player_two_keys()),
            round_counter: RoundCounter::default(),
            game_over: GameOver::default(),
            betting_timer: BettingTimer::default(),
            countdown_timer: CountdownTimer::default(),
        }
    }
}

/// Whether a whole frame can run whatever the dice show.
pub open spec fn safe(game: Game, loading: Seq<Asset>, input: Input) -> bool {
    forall|chance: Chance| #[trigger] frame_ready(game, loading, input, chance)
}

/// The screen that the next frame shows.
pub open spec fn spec_next_screen(game: Game) -> AppStates {
    match game.next_app_state {
        Some(next) => next,
        None => game.app_state,
    }
}

/// Whether the phase that was asked for can begin in the next frame, with
/// the dice that `chance` holds.
pub open spec fn begins(chance: Chance, game: Game, loading: Seq<Asset>, input: Input) -> bool {
    can_begin(
        shown(started(game), loading, game.next_app_state, input, chance),
        game.next_play_state,
        input,
        chance,
    )
}

/// Whether the systems that are due in every frame can run in the next
/// frame: the assets that the loading screen waits for have not failed.
pub open spec fn updates(game: Game, loading: Seq<Asset>, input: Input) -> bool {
    spec_next_screen(game) == AppStates::Loading ==> loading_state(
        shown_loading(started(game).game, game.next_app_state, loading, input),
        input.load_states@,
    ) != LoadState::Failed
}

/// A frame can run where the phase that was asked for can begin and the
/// systems that are due in every frame can run.
pub proof fn lemma_ready(chance: Chance, game: Game, loading: Seq<Asset>, input: Input)
    ensures
        frame_ready(game, loading, input, chance) == (begins(chance, game, loading, input)
            && updates(game, loading, input)),
{
    reveal(shown);
    reveal(systems::screen_step);
    reveal(systems::screen_ready);
    reveal(systems::in_game::ready);
    reveal(systems::in_game::phase_ready);
    reveal(systems::in_game::step);
}

/// Throws the dice that the next frame needs, as far as the frame gets, and
/// tells whether the phase that was asked for can begin with them.
///
/// Dice are thrown only where the frame needs them: the buffs as the
/// betting ends, the shots as the fight begins, the luck rolls as the
/// rounding up begins. Every other dice lies still.
pub fn draw(game: &Game, loading: &AssetsLoading, input: &Input) -> (drawn: (Chance, bool))
    requires
        game.wf(),
    ensures
        systems::fair(drawn.0, *game, loading.0@, *input),
        drawn.1 == begins(drawn.0, *game, loading.0@, *input),
{
    reveal(systems::can_begin);
    let mut chance = Chance::still();
    let mut sim = *game;
    let pending_app = sim.next_app_state;
    let pending_play = sim.next_play_state;
    sim.next_app_state = None;
    sim.next_play_state = None;
    let mut unused = AssetsLoading::default();
    assert(unused.0@ =~= Seq::<Asset>::empty());
    let mut told: Vec<Event> = Vec::new();
    assert(told.deep_view() =~= Seq::<EventView>::empty());
    let ghost start = started(*game);
    let ghost assets = loading.0@;
    show(pending_app, &mut sim, &mut unused, input, &chance, &mut told);
    let ghost screened = Frame { game: sim, events: told.deep_view() };
    proof {
        systems::lemma_shown_ignores_loading(
            start,
            Seq::<Asset>::empty(),
            assets,
            pending_app,
            *input,
            chance,
        );
        systems::lemma_shown_keeps_wf(start, assets, pending_app, *input, chance);
    }
    match pending_play {
        Some(next) => {
            if next != sim.play_state {
                if sim.play_state == PlayStates::Betting {
                    chance.draw_buffs(&sim);
                }
                let ghost buffs = chance;
                proof {
                    systems::lemma_shown_ignores_chance(
                        start,
                        assets,
                        pending_app,
                        *input,
                        Chance::still(),
                        buffs,
                    );
                }
                if !phase_is_ready(sim.play_state, Schedule::OnExit, &sim, &chance) {
                    return (chance, false);
                }
                proof {
                    systems::lemma_phase_keeps_wf(
                        sim.play_state,
                        Schedule::OnExit,
                        screened,
                        *input,
                        buffs,
                    );
                    reveal(left);
                }
                leave(next, &mut sim, input, &chance, &mut told);
                match next {
                    PlayStates::Fighting => chance.draw_shots(&sim),
                    PlayStates::RoundingUp => chance.draw_rolls(&sim),
                    _ => {},
                }
                proof {
                    systems::lemma_shown_ignores_chance(
                        start,
                        assets,
                        pending_app,
                        *input,
                        Chance::still(),
                        chance,
                    );
                    systems::lemma_left_reads_buffs(screened, next, *input, buffs, chance);
                }
                let ok = phase_is_ready(next, Schedule::OnEnter, &sim, &chance);
                return (chance, ok);
            }
        },
        None => {},
    }
    (chance, true)
}

/// Works out whether the systems that are due in every frame can run in the
/// next frame.
pub fn can_update(game: &Game, loading: &AssetsLoading, input: &Input) -> (can: bool)
    ensures
        can == updates(*game, loading.0@, *input),
{
    reveal(shown);
    match game.next_app_state {
        Some(AppStates::Loading) => {
            if game.app_state == AppStates::Loading {
                get_loading_state(&loading.0, &input.load_states) != LoadState::Failed
            } else {
                let mut waited = AssetsLoading::default();
                let mut i: usize = 0;
                while i < loading.0.len()
                    invariant
                        i <= loading.0.len(),
                        waited.0@ == loading.0@.take(i as int),
                    decreases loading.0.len() - i,
                {
                    load(loading.0[i], &mut waited);
                    proof {
                        assert(loading.0@.take(i + 1) =~= loading.0@.take(i as int).push(
                            loading.0@[i as int],
                        ));
                    }
                    i = i + 1;
                }
                assert(loading.0@.take(i as int) =~= loading.0@);
                load_assets(&mut waited);
                get_loading_state(&waited.0, &input.load_states) != LoadState::Failed
            }
        },
        Some(_) => true,
        None => {
            game.app_state != AppStates::Loading || get_loading_state(
                &loading.0,
                &input.load_states,
            ) != LoadState::Failed
        },
    }
}

/// Runs a whole frame and throws the dice that it needs, and answers with
/// the events of the frame.
///
/// What comes of the frame is what `systems::plugin` makes of it with some
/// dice that the frame can throw.
pub fn plugin(game: &mut Game, loading: &mut AssetsLoading, input: &Input) -> (events: Vec<Event>)
    requires
        old(game).wf(),
        safe(*old(game), old(loading).0@, *input),
    ensures
        final(game).wf(),
        exists|chance: Chance|
            ({
                &&& #[trigger] systems::fair(chance, *old(game), old(loading).0@, *input)
                &&& frame_step(*old(game), old(loading).0@, *input, chance) == (Frame {
                    game: *final(game),
                    events: events.deep_view(),
                })
                &&& final(loading).0@ == frame_loading(
                    *old(game),
                    old(loading).0@,
                    *input,
                    chance,
                )
            }),
{
    let drawn = draw(game, loading, input);
    proof {
        assert(frame_ready(*game, loading.0@, *input, drawn.0));
        systems::lemma_frame_keeps_wf(*game, loading.0@, *input, drawn.0);
    }
    systems::plugin(game, loading, input, &drawn.0)
}

/// A frame without a report of an asset that failed to load can run
/// whatever the dice show, if it begins no other phase or finds room in the
/// numbers of the match: numbers grow only as a phase ends or begins.
pub proof fn lemma_steady_is_safe(game: Game, loading: Seq<Asset>, input: Input)
    requires
        game.turning() ==> game.roomy(),
        spec_none_failed(input.load_states@),
    ensures
        safe(game, loading, input),
{
    assert forall|chance: Chance| #[trigger] frame_ready(game, loading, input, chance) by {
        let screen = shown(started(game), loading, game.next_app_state, input, chance);
        let phase = begun(screen, game.next_play_state, input, chance);
        systems::lemma_shown_keeps_phase(
            started(game),
            loading,
            game.next_app_state,
            input,
            chance,
        );
        if game.turning() {
            systems::lemma_shown_keeps_roomy(
                started(game),
                loading,
                game.next_app_state,
                input,
                chance,
            );
            systems::lemma_roomy_can_begin(screen, game.next_play_state, input, chance);
        } else {
            reveal(systems::can_begin);
        }
        systems::lemma_update_is_ready(
            screen.game.app_state,
            phase.game,
            systems::shown_loading(started(game).game, game.next_app_state, loading, input),
            input,
            chance,
        );
    }
}

/// Runs a whole frame with real dice if the frame can run with them, and
/// does nothing if it cannot.
///
/// A match that is not well-formed runs no frame. Any other match runs the
/// frame unless the dice come to ask for more than a number can hold, or an
/// asset that the loading screen waits for has failed to load.
pub fn run(game: &mut Game, loading: &mut AssetsLoading, input: &Input) -> (events: Option<
    Vec<Event>,
>)
    ensures
        events is None ==> *final(game) == *old(game) && *final(loading) == *old(loading),
        events is None && old(game).wf() ==> exists|chance: Chance|
            ({
                &&& #[trigger] systems::fair(chance, *old(game), old(loading).0@, *input)
                &&& !frame_ready(*old(game), old(loading).0@, *input, chance)
            }),
        events is Some ==> old(game).wf() && final(game).wf(),
        events is Some ==> exists|chance: Chance|
            ({
                &&& #[trigger] systems::fair(chance, *old(game), old(loading).0@, *input)
                &&& frame_ready(*old(game), old(loading).0@, *input, chance)
                &&& frame_step(*old(game), old(loading).0@, *input, chance) == (Frame {
                    game: *final(game),
                    events: events->0.deep_view(),
                })
                &&& final(loading).0@ == frame_loading(
                    *old(game),
                    old(loading).0@,
                    *input,
                    chance,
                )
            }),
        old(game).wf() && safe(*old(game), old(loading).0@, *input) ==> events is Some,
{
    if !game.is_wf() {
        return None;
    }
    let drawn = draw(game, loading, input);
    let can = can_update(game, loading, input);
    proof {
        lemma_ready(drawn.0, *game, loading.0@, *input);
    }
    if drawn.1 && can {
        proof {
            systems::lemma_frame_keeps_wf(*game, loading.0@, *input, drawn.0);
        }
        Some(systems::plugin(game, loading, input, &drawn.0))
    } else {
        None
    }
}

} // verus!
