//! The systems: the steps that read and write the match.

pub mod in_game;
pub mod loading;
pub mod menu;

use super::chance::Chance;
use super::events::{changes, tell_changes, Event, EventKind, EventView};
use super::input::Input;
use super::resources::assets::Asset;
use super::resources::AssetsLoading;
use super::states::{AppStates, PlayStates};
use super::Game;
use vstd::prelude::*;

verus! {

/// When the systems of a phase or a screen run.
#[derive(Debug, Clone, Copy, PartialEq, Eq, Structural)]
pub enum Schedule {
    /// Once, as the phase begins.
    OnEnter,
    /// In every frame of the phase.
    Update,
    /// Once, as the phase ends.
    OnExit,
}

/// Where a frame stands between two systems: the match, and the events of
/// the frame so far.
pub struct Frame {
    pub game: Game,
    pub events: Seq<EventView>,
}

/// Whether every condition holds; true of no conditions.
pub open spec fn spec_all(conditions: Seq<bool>) -> bool {
    forall|i: int| 0 <= i < conditions.len() ==> conditions[i]
}

/// Whether every condition holds.
pub fn all(conditions: &Vec<bool>) -> (r: bool)
    ensures
        r == spec_all(conditions@),
{
    let mut i: usize = 0;
    while i < conditions.len()
        invariant
            i <= conditions.len(),
            forall|j: int| 0 <= j < i ==> conditions@[j],
        decreases conditions.len() - i,
    {
        if !conditions[i] {
            return false;
        }
        i = i + 1;
    }
    true
}

/// Whether none of `events` is of the given kind.
pub open spec fn spec_events_empty(events: Seq<EventView>, kind: EventKind) -> bool {
    forall|i: int| 0 <= i < events.len() ==> (#[trigger] events[i]).kind() != kind
}

/// Whether none of `events` is of the given kind.
pub fn events_empty(events: &Vec<Event>, kind: EventKind) -> (empty: bool)
    ensures
        empty == spec_events_empty(events.deep_view(), kind),
{
    let ghost all = events.deep_view();
    let mut i: usize = 0;
    while i < events.len()
        invariant
            i <= events.len(),
            all == events.deep_view(),
            all.len() == events.len(),
            forall|j: int| 0 <= j < i ==> (#[trigger] all[j]).kind() != kind,
        decreases events.len() - i,
    {
        if events[i].kind() == kind {
            assert(all[i as int].kind() == kind);
            return false;
        }
        i = i + 1;
    }
    true
}

/// Whether the systems of the screen `app_state` that are due on `schedule`
/// can run.
#[verifier::opaque]
pub open spec fn screen_ready(
    app_state: AppStates,
    schedule: Schedule,
    game: Game,
    loading: Seq<Asset>,
    input: Input,
    chance: Chance,
) -> bool {
    match app_state {
        AppStates::Menu => true,
        AppStates::Loading => loading::ready(schedule, loading, input),
        AppStates::InGame => in_game::ready(schedule, game, chance),
    }
}

/// The frame after the systems of the screen `app_state` that are due on
/// `schedule` ran.
#[verifier::opaque]
pub open spec fn screen_step(
    app_state: AppStates,
    schedule: Schedule,
    frame: Frame,
    loading: Seq<Asset>,
    input: Input,
    chance: Chance,
) -> Frame {
    match app_state {
        AppStates::Menu => Frame { game: menu::after(schedule, frame.game, input), ..frame },
        AppStates::Loading => Frame {
            game: loading::after(schedule, frame.game, loading, input),
            ..frame
        },
        AppStates::InGame => in_game::step(schedule, frame, input, chance),
    }
}

/// The assets that are being loaded after the systems of the screen
/// `app_state` that are due on `schedule` ran: only the loading screen
/// touches them.
pub open spec fn screen_loading(
    app_state: AppStates,
    schedule: Schedule,
    loading: Seq<Asset>,
    input: Input,
) -> Seq<Asset> {
    if app_state == AppStates::Loading {
        loading::loading_after(schedule, loading, input)
    } else {
        loading
    }
}

/// Runs the systems of the screen `app_state` that are due on `schedule`.
pub fn screen(
    app_state: AppStates,
    schedule: Schedule,
    game: &mut Game,
    loading: &mut AssetsLoading,
    input: &Input,
    chance: &Chance,
    events: &mut Vec<Event>,
)
    requires
        screen_ready(app_state, schedule, *old(game), old(loading).0@, *input, *chance),
    ensures
        screen_step(
            app_state,
            schedule,
            Frame { game: *old(game), events: old(events).deep_view() },
            old(loading).0@,
            *input,
            *chance,
        ) == (Frame { game: *final(game), events: final(events).deep_view() }),
        final(loading).0@ == screen_loading(app_state, schedule, old(loading).0@, *input),
{
    reveal(screen_ready);
    reveal(screen_step);
    match app_state {
        AppStates::Menu => menu::plugin(schedule, game, input, chance, events),
        AppStates::Loading => loading::plugin(schedule, game, loading, input, events),
        AppStates::InGame => in_game::plugin(schedule, game, input, chance, events),
    }
}

/// Whether `pending` asks for another screen than the one that is shown.
pub open spec fn switches(game: Game, pending: Option<AppStates>) -> bool {
    pending is Some && pending->0 != game.app_state
}

/// The frame after the screen that `pending` asks for came up: the old
/// screen goes, then the new one comes. A request for the screen that is
/// shown already changes nothing.
#[verifier::opaque]
pub open spec fn shown(
    frame: Frame,
    loading: Seq<Asset>,
    pending: Option<AppStates>,
    input: Input,
    chance: Chance,
) -> Frame {
    if switches(frame.game, pending) {
        let gone = screen_step(
            frame.game.app_state,
            Schedule::OnExit,
            frame,
            loading,
            input,
            chance,
        );
        screen_step(
            pending->0,
            Schedule::OnEnter,
            Frame { game: Game { app_state: pending->0, ..gone.game }, ..gone },
            screen_loading(frame.game.app_state, Schedule::OnExit, loading, input),
            input,
            chance,
        )
    } else {
        frame
    }
}

/// The assets that are being loaded after the screen that `pending` asks
/// for came up.
pub open spec fn shown_loading(
    game: Game,
    pending: Option<AppStates>,
    loading: Seq<Asset>,
    input: Input,
) -> Seq<Asset> {
    if switches(game, pending) {
        screen_loading(
            pending->0,
            Schedule::OnEnter,
            screen_loading(game.app_state, Schedule::OnExit, loading, input),
            input,
        )
    } else {
        loading
    }
}

/// Brings up the screen that `pending` asks for.
pub fn show(
    pending: Option<AppStates>,
    game: &mut Game,
    loading: &mut AssetsLoading,
    input: &Input,
    chance: &Chance,
    events: &mut Vec<Event>,
)
    ensures
        shown(
            Frame { game: *old(game), events: old(events).deep_view() },
            old(loading).0@,
            pending,
            *input,
            *chance,
        ) == (Frame { game: *final(game), events: final(events).deep_view() }),
        final(loading).0@ == shown_loading(*old(game), pending, old(loading).0@, *input),
{
    reveal(shown);
    reveal(screen_ready);
    reveal(in_game::ready);
    match pending {
        Some(next) => {
            if next != game.app_state {
                screen(game.app_state, Schedule::OnExit, game, loading, input, chance, events);
                game.app_state = next;
                screen(next, Schedule::OnEnter, game, loading, input, chance, events);
            }
        },
        None => {},
    }
}

/// Whether `pending` asks for another phase than the one the match is in.
pub open spec fn turns(game: Game, pending: Option<PlayStates>) -> bool {
    pending is Some && pending->0 != game.play_state
}

/// The frame after the phase the match is in ended, with the match in the
/// phase `next`.
#[verifier::opaque]
pub open spec fn left(frame: Frame, next: PlayStates, input: Input, chance: Chance) -> Frame {
    let gone = in_game::phase_step(frame.game.play_state, Schedule::OnExit, frame, input, chance);
    Frame { game: Game { play_state: next, ..gone.game }, ..gone }
}

/// Ends the phase the match is in and puts the match in the phase `next`.
pub fn leave(
    next: PlayStates,
    game: &mut Game,
    input: &Input,
    chance: &Chance,
    events: &mut Vec<Event>,
)
    requires
        in_game::phase_ready(old(game).play_state, Schedule::OnExit, *old(game), *chance),
    ensures
        left(Frame { game: *old(game), events: old(events).deep_view() }, next, *input, *chance)
            == (Frame { game: *final(game), events: final(events).deep_view() }),
{
    reveal(left);
    in_game::phase(game.play_state, Schedule::OnExit, game, input, chance, events);
    game.play_state = next;
}

/// The frame after the phase the match is in began.
#[verifier::opaque]
pub open spec fn entered(frame: Frame, input: Input, chance: Chance) -> Frame {
    in_game::phase_step(frame.game.play_state, Schedule::OnEnter, frame, input, chance)
}

/// Begins the phase the match is in.
pub fn enter(game: &mut Game, input: &Input, chance: &Chance, events: &mut Vec<Event>)
    requires
        in_game::phase_ready(old(game).play_state, Schedule::OnEnter, *old(game), *chance),
    ensures
        entered(Frame { game: *old(game), events: old(events).deep_view() }, *input, *chance) == (
        Frame { game: *final(game), events: final(events).deep_view() }),
{
    reveal(entered);
    in_game::phase(game.play_state, Schedule::OnEnter, game, input, chance, events);
}

/// The frame after the phase that `pending` asks for began: the old phase
/// ends, then the new one begins. A request for the phase the match is in
/// already changes nothing.
#[verifier::opaque]
pub open spec fn begun(frame: Frame, pending: Option<PlayStates>, input: Input, chance: Chance) -> Frame {
    if turns(frame.game, pending) {
        entered(left(frame, pending->0, input, chance), input, chance)
    } else {
        frame
    }
}

/// Whether the phase that `pending` asks for can begin.
#[verifier::opaque]
pub open spec fn can_begin(
    frame: Frame,
    pending: Option<PlayStates>,
    input: Input,
    chance: Chance,
) -> bool {
    turns(frame.game, pending) ==> {
        &&& in_game::phase_ready(frame.game.play_state, Schedule::OnExit, frame.game, chance)
        &&& in_game::phase_ready(
            pending->0,
            Schedule::OnEnter,
            left(frame, pending->0, input, chance).game,
            chance,
        )
    }
}

/// The frame as it starts: what was asked for is taken up, and nothing has
/// happened yet.
pub open spec fn started(game: Game) -> Frame {
    Frame { game: Game { next_app_state: None, next_play_state: None, ..game }, events: seq![] }
}

/// The systems of a whole frame.
///
/// First the screen that was asked for comes up, then the phase that was
/// asked for begins, and then the systems of the screen run that are due in
/// every frame. What these ask for is left for the next frame.
pub open spec fn frame_run(game: Game, loading: Seq<Asset>, input: Input, chance: Chance) -> Frame {
    let screen = shown(started(game), loading, game.next_app_state, input, chance);
    let phase = begun(screen, game.next_play_state, input, chance);
    screen_step(
        screen.game.app_state,
        Schedule::Update,
        phase,
        shown_loading(started(game).game, game.next_app_state, loading, input),
        input,
        chance,
    )
}

/// A whole frame: its systems run, and the frame ends by telling what it
/// has changed of what the screen shows of the match.
pub open spec fn frame_step(game: Game, loading: Seq<Asset>, input: Input, chance: Chance) -> Frame {
    let run = frame_run(game, loading, input, chance);
    Frame { game: run.game, events: run.events + changes(game, run.game) }
}

/// The assets that are being loaded after a whole frame.
pub open spec fn frame_loading(game: Game, loading: Seq<Asset>, input: Input, chance: Chance) -> Seq<
    Asset,
> {
    let screen = shown(started(game), loading, game.next_app_state, input, chance);
    screen_loading(
        screen.game.app_state,
        Schedule::Update,
        shown_loading(started(game).game, game.next_app_state, loading, input),
        input,
    )
}

/// Whether a whole frame can run with the dice that `chance` holds.
pub open spec fn frame_ready(game: Game, loading: Seq<Asset>, input: Input, chance: Chance) -> bool {
    let screen = shown(started(game), loading, game.next_app_state, input, chance);
    let phase = begun(screen, game.next_play_state, input, chance);
    &&& can_begin(screen, game.next_play_state, input, chance)
    &&& screen_ready(
        screen.game.app_state,
        Schedule::Update,
        phase.game,
        shown_loading(started(game).game, game.next_app_state, loading, input),
        input,
        chance,
    )
}

/// Begins the phase that `pending` asks for.
pub fn begin(
    pending: Option<PlayStates>,
    game: &mut Game,
    input: &Input,
    chance: &Chance,
    events: &mut Vec<Event>,
)
    requires
        can_begin(
            Frame { game: *old(game), events: old(events).deep_view() },
            pending,
            *input,
            *chance,
        ),
    ensures
        begun(Frame { game: *old(game), events: old(events).deep_view() }, pending, *input, *chance)
            == (Frame { game: *final(game), events: final(events).deep_view() }),
{
    reveal(begun);
    reveal(can_begin);
    reveal(left);
    match pending {
        Some(next) => {
            if next != game.play_state {
                leave(next, game, input, chance, events);
                enter(game, input, chance, events);
            }
        },
        None => {},
    }
}

/// Runs a whole frame with the dice that `chance` holds, and answers with
/// the events of the frame.
pub fn plugin(game: &mut Game, loading: &mut AssetsLoading, input: &Input, chance: &Chance) -> (events:
    Vec<Event>)
    requires
        frame_ready(*old(game), old(loading).0@, *input, *chance),
    ensures
        frame_step(*old(game), old(loading).0@, *input, *chance) == (Frame {
            game: *final(game),
            events: events.deep_view(),
        }),
        final(loading).0@ == frame_loading(*old(game), old(loading).0@, *input, *chance),
{
    let mut events: Vec<Event> = Vec::new();
    assert(events.deep_view() =~= Seq::<EventView>::empty());
    let before = *game;
    let pending_app = game.next_app_state;
    let pending_play = game.next_play_state;
    game.next_app_state = None;
    game.next_play_state = None;
    show(pending_app, game, loading, input, chance, &mut events);
    let app_state = game.app_state;
    begin(pending_play, game, input, chance, &mut events);
    screen(app_state, Schedule::Update, game, loading, input, chance, &mut events);
    tell_changes(&before, game, &mut events);
    events
}

/// Whether `chance` holds dice that the frame can throw: where the frame
/// begins the fight, each shot shows faces of the dice of the two players as
/// they go into the fight, and where it begins the rounding up, each roll
/// shows a face of the luck dice of its player as they come out of the
/// fight. A frame that cannot end the phase the match is in throws no dice
/// for the next.
pub open spec fn fair(chance: Chance, game: Game, loading: Seq<Asset>, input: Input) -> bool {
    let screen = shown(started(game), loading, game.next_app_state, input, chance);
    turns(screen.game, game.next_play_state) && in_game::phase_ready(
        screen.game.play_state,
        Schedule::OnExit,
        screen.game,
        chance,
    ) ==> {
        let next = game.next_play_state->0;
        let gone = left(screen, next, input, chance).game;
        &&& next == PlayStates::Fighting ==> {
            &&& chance.shots.0.fits(&gone.player_two, &gone.player_one)
            &&& chance.shots.1.fits(&gone.player_one, &gone.player_two)
        }
        &&& next == PlayStates::RoundingUp ==> {
            &&& gone.player_one.luck.value.shows(chance.bullet_rolls.0)
            &&& gone.player_two.luck.value.shows(chance.bullet_rolls.1)
            &&& gone.player_one.luck.value.shows(chance.dodge_rolls.0)
            &&& gone.player_two.luck.value.shows(chance.dodge_rolls.1)
        }
    }
}

/// A screen comes up the same whatever assets are being loaded.
pub proof fn lemma_shown_ignores_loading(
    frame: Frame,
    a: Seq<Asset>,
    b: Seq<Asset>,
    pending: Option<AppStates>,
    input: Input,
    chance: Chance,
)
    ensures
        shown(frame, a, pending, input, chance) == shown(frame, b, pending, input, chance),
{
    reveal(shown);
    reveal(screen_step);
}

/// The systems of a screen throw no dice: whatever `chance` holds, they do
/// the same.
pub proof fn lemma_screen_ignores_chance(
    app_state: AppStates,
    schedule: Schedule,
    frame: Frame,
    loading: Seq<Asset>,
    input: Input,
    a: Chance,
    b: Chance,
)
    ensures
        screen_step(app_state, schedule, frame, loading, input, a) == screen_step(
            app_state,
            schedule,
            frame,
            loading,
            input,
            b,
        ),
        screen_ready(app_state, schedule, frame.game, loading, input, a) == screen_ready(
            app_state,
            schedule,
            frame.game,
            loading,
            input,
            b,
        ),
{
    reveal(screen_step);
    reveal(screen_ready);
    reveal(in_game::step);
    reveal(in_game::ready);
    reveal(in_game::phase_step);
    reveal(in_game::phase_ready);
}

/// A screen comes up without a dice thrown.
pub proof fn lemma_shown_ignores_chance(
    frame: Frame,
    loading: Seq<Asset>,
    pending: Option<AppStates>,
    input: Input,
    a: Chance,
    b: Chance,
)
    ensures
        shown(frame, loading, pending, input, a) == shown(frame, loading, pending, input, b),
{
    reveal(shown);
    if switches(frame.game, pending) {
        let from = frame.game.app_state;
        lemma_screen_ignores_chance(from, Schedule::OnExit, frame, loading, input, a, b);
        let gone = screen_step(from, Schedule::OnExit, frame, loading, input, a);
        lemma_screen_ignores_chance(
            pending->0,
            Schedule::OnEnter,
            Frame { game: Game { app_state: pending->0, ..gone.game }, ..gone },
            screen_loading(from, Schedule::OnExit, loading, input),
            input,
            a,
            b,
        );
    }
}

/// A phase ends with no other dice than the buffs drawn.
pub proof fn lemma_left_reads_buffs(
    frame: Frame,
    next: PlayStates,
    input: Input,
    a: Chance,
    b: Chance,
)
    requires
        a.buffs == b.buffs,
    ensures
        left(frame, next, input, a) == left(frame, next, input, b),
        in_game::phase_ready(frame.game.play_state, Schedule::OnExit, frame.game, a)
            == in_game::phase_ready(frame.game.play_state, Schedule::OnExit, frame.game, b),
{
    reveal(left);
    reveal(in_game::phase_step);
    reveal(in_game::phase_ready);
}

/// A phase begins with no other dice than the shots and the luck rolls.
pub proof fn lemma_entered_reads_rolls(frame: Frame, input: Input, a: Chance, b: Chance)
    requires
        a.shots == b.shots,
        a.bullet_rolls == b.bullet_rolls,
        a.dodge_rolls == b.dodge_rolls,
    ensures
        entered(frame, input, a) == entered(frame, input, b),
        in_game::phase_ready(frame.game.play_state, Schedule::OnEnter, frame.game, a)
            == in_game::phase_ready(frame.game.play_state, Schedule::OnEnter, frame.game, b),
{
    reveal(entered);
    reveal(in_game::phase_step);
    reveal(in_game::phase_ready);
}

/// The systems of a phase keep the two players who they are, with dice that
/// can be thrown.
pub proof fn lemma_phase_keeps_wf(
    play_state: PlayStates,
    schedule: Schedule,
    frame: Frame,
    input: Input,
    chance: Chance,
)
    requires
        frame.game.wf(),
        in_game::phase_ready(play_state, schedule, frame.game, chance),
    ensures
        in_game::phase_step(play_state, schedule, frame, input, chance).game.wf(),
{
    reveal(in_game::phase_step);
    reveal(in_game::phase_ready);
    if play_state == PlayStates::Betting && schedule == Schedule::Update {
        in_game::betting::lemma_bets_keep_stats(frame.game.player_one, input.keys@);
        in_game::betting::lemma_bets_keep_stats(frame.game.player_two, input.keys@);
    }
}

/// The systems of a screen keep the two players who they are, with dice
/// that can be thrown.
pub proof fn lemma_screen_keeps_wf(
    app_state: AppStates,
    schedule: Schedule,
    frame: Frame,
    loading: Seq<Asset>,
    input: Input,
    chance: Chance,
)
    requires
        frame.game.wf(),
        screen_ready(app_state, schedule, frame.game, loading, input, chance),
    ensures
        screen_step(app_state, schedule, frame, loading, input, chance).game.wf(),
{
    reveal(screen_step);
    reveal(screen_ready);
    reveal(in_game::step);
    reveal(in_game::ready);
    if app_state == AppStates::InGame && schedule == Schedule::Update {
        lemma_phase_keeps_wf(frame.game.play_state, schedule, frame, input, chance);
    }
}

/// A screen comes up with the two players who they are, with dice that can
/// be thrown.
pub proof fn lemma_shown_keeps_wf(
    frame: Frame,
    loading: Seq<Asset>,
    pending: Option<AppStates>,
    input: Input,
    chance: Chance,
)
    requires
        frame.game.wf(),
    ensures
        shown(frame, loading, pending, input, chance).game.wf(),
{
    reveal(shown);
    reveal(screen_ready);
    reveal(in_game::ready);
    if switches(frame.game, pending) {
        let from = frame.game.app_state;
        lemma_screen_keeps_wf(from, Schedule::OnExit, frame, loading, input, chance);
        let gone = screen_step(from, Schedule::OnExit, frame, loading, input, chance);
        lemma_screen_keeps_wf(
            pending->0,
            Schedule::OnEnter,
            Frame { game: Game { app_state: pending->0, ..gone.game }, ..gone },
            screen_loading(from, Schedule::OnExit, loading, input),
            input,
            chance,
        );
    }
}

/// A whole frame keeps the two players who they are, with dice that can be
/// thrown.
pub proof fn lemma_frame_keeps_wf(game: Game, loading: Seq<Asset>, input: Input, chance: Chance)
    requires
        game.wf(),
        frame_ready(game, loading, input, chance),
    ensures
        frame_step(game, loading, input, chance).game.wf(),
{
    reveal(begun);
    reveal(can_begin);
    reveal(left);
    reveal(entered);
    let screen = shown(started(game), loading, game.next_app_state, input, chance);
    lemma_shown_keeps_wf(started(game), loading, game.next_app_state, input, chance);
    if turns(screen.game, game.next_play_state) {
        let next = game.next_play_state->0;
        lemma_phase_keeps_wf(screen.game.play_state, Schedule::OnExit, screen, input, chance);
        let gone = left(screen, next, input, chance);
        lemma_phase_keeps_wf(next, Schedule::OnEnter, gone, input, chance);
    }
    let phase = begun(screen, game.next_play_state, input, chance);
    lemma_screen_keeps_wf(
        screen.game.app_state,
        Schedule::Update,
        phase,
        shown_loading(started(game).game, game.next_app_state, loading, input),
        input,
        chance,
    );
}

/// A screen comes up with room in the numbers of the match where there was
/// room before.
pub proof fn lemma_shown_keeps_roomy(
    frame: Frame,
    loading: Seq<Asset>,
    pending: Option<AppStates>,
    input: Input,
    chance: Chance,
)
    requires
        frame.game.roomy(),
    ensures
        shown(frame, loading, pending, input, chance).game.roomy(),
{
    reveal(shown);
    reveal(screen_step);
    reveal(in_game::step);
}

/// With room in the numbers of the match, the phase that was asked for can
/// begin whatever the dice show.
pub proof fn lemma_roomy_can_begin(
    frame: Frame,
    pending: Option<PlayStates>,
    input: Input,
    chance: Chance,
)
    requires
        frame.game.roomy(),
    ensures
        can_begin(frame, pending, input, chance),
{
    reveal(can_begin);
    reveal(in_game::phase_ready);
    if turns(frame.game, pending) {
        let gone = left(frame, pending->0, input, chance).game;
        assert(gone.player_one.bullets.value < u8::MAX && gone.player_one.dodges.value < u8::MAX
            && gone.player_two.bullets.value < u8::MAX && gone.player_two.dodges.value
            < u8::MAX) by {
            reveal(left);
            reveal(in_game::phase_step);
        }
    }
}

/// With assets that have not failed to load, the systems that are due in
/// every frame can run whatever the dice show.
pub proof fn lemma_update_is_ready(
    app_state: AppStates,
    game: Game,
    loading: Seq<Asset>,
    input: Input,
    chance: Chance,
)
    requires
        loading::spec_none_failed(input.load_states@),
    ensures
        screen_ready(app_state, Schedule::Update, game, loading, input, chance),
{
    reveal(screen_ready);
    reveal(in_game::ready);
    reveal(in_game::phase_ready);
    loading::lemma_none_failed(loading, input.load_states@);
}

/// A screen comes up without a change of phase.
pub proof fn lemma_shown_keeps_phase(
    frame: Frame,
    loading: Seq<Asset>,
    pending: Option<AppStates>,
    input: Input,
    chance: Chance,
)
    ensures
        shown(frame, loading, pending, input, chance).game.play_state == frame.game.play_state,
{
    reveal(shown);
    reveal(screen_step);
    reveal(in_game::step);
}

/// No system changes the phase of the match: the phase changes only between
/// the end of one phase and the beginning of the next.
pub proof fn lemma_systems_keep_phase(
    app_state: AppStates,
    play_state: PlayStates,
    schedule: Schedule,
    frame: Frame,
    loading: Seq<Asset>,
    input: Input,
    chance: Chance,
)
    ensures
        in_game::phase_step(play_state, schedule, frame, input, chance).game.play_state
            == frame.game.play_state,
        screen_step(app_state, schedule, frame, loading, input, chance).game.play_state
            == frame.game.play_state,
{
    reveal(in_game::phase_step);
    reveal(in_game::step);
    reveal(screen_step);
}

/// A frame puts the match in the phase that was asked for, and in no other:
/// without a request the match stays in the phase it is in.
pub proof fn lemma_frame_follows_request(
    game: Game,
    loading: Seq<Asset>,
    input: Input,
    chance: Chance,
)
    ensures
        frame_step(game, loading, input, chance).game.play_state == (match game.next_play_state {
            Some(next) => next,
            None => game.play_state,
        }),
{
    reveal(begun);
    reveal(left);
    reveal(entered);
    let screen = shown(started(game), loading, game.next_app_state, input, chance);
    lemma_shown_keeps_phase(started(game), loading, game.next_app_state, input, chance);
    let phase = begun(screen, game.next_play_state, input, chance);
    if turns(screen.game, game.next_play_state) {
        let next = game.next_play_state->0;
        let gone = left(screen, next, input, chance);
        lemma_systems_keep_phase(AppStates::InGame, next, Schedule::OnEnter, gone, loading, input, chance);
    }
    lemma_systems_keep_phase(
        screen.game.app_state,
        phase.game.play_state,
        Schedule::Update,
        phase,
        shown_loading(started(game).game, game.next_app_state, loading, input),
        input,
        chance,
    );
}

/// What the systems of a phase ask for in a frame that has asked for
/// nothing yet: nothing, or the phase that follows the one the match is in.
pub proof fn lemma_phase_asks_for_the_next(
    play_state: PlayStates,
    frame: Frame,
    input: Input,
    chance: Chance,
)
    requires
        frame.game.next_play_state is None,
    ensures
        ({
            let asked = in_game::phase_step(
                play_state,
                Schedule::Update,
                frame,
                input,
                chance,
            ).game.next_play_state;
            asked is None || asked == Some(frame.game.play_state.next())
        }),
{
    reveal(in_game::phase_step);
}

/// No system of a phase clears the latch of a decided match.
pub proof fn lemma_phase_keeps_latch(
    play_state: PlayStates,
    schedule: Schedule,
    frame: Frame,
    input: Input,
    chance: Chance,
)
    requires
        frame.game.game_over.0,
    ensures
        in_game::phase_step(play_state, schedule, frame, input, chance).game.game_over.0,
{
    reveal(in_game::phase_step);
}

/// No system of a screen clears the latch of a decided match, but those
/// that run as the match leaves the screen.
pub proof fn lemma_screen_keeps_latch(
    app_state: AppStates,
    schedule: Schedule,
    frame: Frame,
    loading: Seq<Asset>,
    input: Input,
    chance: Chance,
)
    requires
        frame.game.game_over.0,
        !(app_state == AppStates::InGame && schedule == Schedule::OnExit),
    ensures
        screen_step(app_state, schedule, frame, loading, input, chance).game.game_over.0,
{
    reveal(screen_step);
    reveal(in_game::step);
    lemma_phase_keeps_latch(frame.game.play_state, schedule, frame, input, chance);
}

/// The latch of a decided match stays set while the match is on the screen:
/// a frame clears it only where it takes the match off the screen.
pub proof fn lemma_latch_stays_set(game: Game, loading: Seq<Asset>, input: Input, chance: Chance)
    requires
        game.game_over.0,
        !(game.app_state == AppStates::InGame && switches(game, game.next_app_state)),
    ensures
        frame_step(game, loading, input, chance).game.game_over.0,
{
    let start = started(game);
    let screen = shown(start, loading, game.next_app_state, input, chance);
    assert(screen.game.game_over.0) by {
        reveal(shown);
        if switches(start.game, game.next_app_state) {
            let from = start.game.app_state;
            lemma_screen_keeps_latch(from, Schedule::OnExit, start, loading, input, chance);
            let gone = screen_step(from, Schedule::OnExit, start, loading, input, chance);
            lemma_screen_keeps_latch(
                game.next_app_state->0,
                Schedule::OnEnter,
                Frame { game: Game { app_state: game.next_app_state->0, ..gone.game }, ..gone },
                screen_loading(from, Schedule::OnExit, loading, input),
                input,
                chance,
            );
        }
    }
    let phase = begun(screen, game.next_play_state, input, chance);
    assert(phase.game.game_over.0) by {
        reveal(begun);
        reveal(left);
        reveal(entered);
        if turns(screen.game, game.next_play_state) {
            let next = game.next_play_state->0;
            lemma_phase_keeps_latch(
                screen.game.play_state,
                Schedule::OnExit,
                screen,
                input,
                chance,
            );
            lemma_phase_keeps_latch(
                next,
                Schedule::OnEnter,
                left(screen, next, input, chance),
                input,
                chance,
            );
        }
    }
    lemma_screen_keeps_latch(
        screen.game.app_state,
        Schedule::Update,
        phase,
        shown_loading(start.game, game.next_app_state, loading, input),
        input,
        chance,
    );
}

} // verus!
