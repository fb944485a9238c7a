use hit_a_key::game::chance::{Chance, Shot};
use hit_a_key::game::components::{Buffes, Bullets, Dodges, Health, Player, PlayerStates};
use hit_a_key::game::events::{
    emit, emit_all, tell_changes, tick_player, AlertEvent, DamageEvent, DepletedEvent,
    DepletedSources, DodgedEvent, Event, EventKind, GameOverEvent, GameOvers, MissedEvent,
    PhaseChangeEvent, PlayerStateChangeEvent, RoundChangeEvent, StatChangeEvent, Stats,
    TickPlayerEvent,
};
use hit_a_key::game::input::{Input, KeyCode, LoadState};
use hit_a_key::game::resources::assets::Asset;
use hit_a_key::game::resources::{AssetsLoading, Timer};
use hit_a_key::game::settings::{player_one_keys, player_two_keys};
use hit_a_key::game::states::{AppStates, PlayStates};
use hit_a_key::game::systems::in_game::{
    health_bar_update, launch_game, listen_game_overs, mana_bar_update, next_play_state,
    pause_game, reset_game, spawn_players, stamina_bar_update, wait_for_input_to_next_play_state,
};
use hit_a_key::game::systems::{all, events_empty, plugin};
use hit_a_key::game::{can_update, draw, run, Game};

fn quiet(delta: u64) -> Input {
    Input { keys: vec![], delta, ticks_faded: vec![], load_states: vec![] }
}

fn press(keys: Vec<KeyCode>) -> Input {
    Input { keys, delta: 0, ticks_faded: vec![], load_states: vec![] }
}

fn change(player: u8) -> Event {
    Event::PlayerStateChange(PlayerStateChangeEvent { player })
}

fn flash(player: u8, value: &str) -> Event {
    Event::TickPlayer(TickPlayerEvent { player, value: value.to_string() })
}

fn phase(phase: PlayStates) -> Event {
    Event::PhaseChange(PhaseChangeEvent { phase })
}

fn round(round: u8) -> Event {
    Event::RoundChange(RoundChangeEvent { round })
}

fn stat(player: u8, stat: Stats, value: u8) -> Event {
    Event::StatChange(StatChangeEvent { player, stat, value })
}

fn step(game: &mut Game, input: &Input, chance: &Chance) -> Vec<Event> {
    let mut loading = AssetsLoading::default();
    plugin(game, &mut loading, input, chance)
}

/// Brings a fresh match to the first frame of its betting phase.
fn betting() -> Game {
    let mut game = Game::new();
    let chance = Chance::still();
    assert_eq!(step(&mut game, &press(vec![KeyCode::Enter]), &chance), vec![]);
    assert_eq!(game.next_app_state, Some(AppStates::InGame));
    assert_eq!(step(&mut game, &quiet(0), &chance), vec![]);
    assert_eq!(game.app_state, AppStates::InGame);
    assert_eq!(game.play_state, PlayStates::Paused);
    assert_eq!(game.next_play_state, Some(PlayStates::Countdown));
    assert_eq!(
        step(&mut game, &quiet(1_000_000_000), &chance),
        vec![phase(PlayStates::Countdown)]
    );
    assert_eq!(game.play_state, PlayStates::Countdown);
    assert_eq!(game.countdown_timer.0.elapsed, 1_000_000_000);
    assert_eq!(step(&mut game, &quiet(2_000_000_000), &chance), vec![]);
    assert_eq!(game.play_state, PlayStates::Countdown);
    assert_eq!(game.next_play_state, Some(PlayStates::Betting));
    assert_eq!(game.countdown_timer.0, Timer::new(3_000_000_000));
    assert_eq!(step(&mut game, &quiet(0), &chance), vec![phase(PlayStates::Betting)]);
    assert_eq!(game.play_state, PlayStates::Betting);
    assert_eq!(game.next_play_state, None);
    game
}

#[test]
fn a_match_starts_from_the_menu_with_a_countdown() {
    let game = betting();
    assert_eq!(game.round_counter.0, 1);
    assert!(!game.game_over.0);
    assert_eq!(game.player_one, Player::new(1, player_one_keys()));
    assert_eq!(game.player_two, Player::new(2, player_two_keys()));
}

#[test]
fn a_round_runs_from_the_bets_to_the_next_round() {
    let mut game = betting();
    let still = Chance::still();
    let mut bets = press(vec![KeyCode::KeyS, KeyCode::KeyK, KeyCode::KeyJ]);
    bets.delta = 5_000_000_000;
    assert_eq!(
        step(&mut game, &bets, &still),
        vec![change(1), change(2), change(1), change(2), change(1), change(2)]
    );
    assert_eq!(game.player_one.state.0, PlayerStates::Attacking);
    assert_eq!(game.player_two.state.0, PlayerStates::Attacking);
    assert_eq!(game.next_play_state, Some(PlayStates::Fighting));

    let mut dice = Chance::still();
    dice.shots = (Shot { marksmanship: 10, luck: 40 }, Shot { marksmanship: 40, luck: 10 });
    assert_eq!(
        step(&mut game, &quiet(0), &dice),
        vec![
            Event::Missed(MissedEvent { player: 2 }),
            Event::Damage(DamageEvent { player: 2, value: 1 }),
            flash(2, "-1"),
            flash(2, "Missed!"),
            phase(PlayStates::Fighting),
            stat(1, Stats::Bullets, 1),
            stat(2, Stats::Health, 2),
            stat(2, Stats::Bullets, 1),
        ]
    );
    assert_eq!(game.play_state, PlayStates::Fighting);
    assert_eq!(game.next_play_state, None);
    assert_eq!(game.player_one.health.value, 3);
    assert_eq!(game.player_two.health.value, 2);
    assert_eq!(game.player_one.bullets.value, 1);
    assert_eq!(game.player_two.bullets.value, 1);

    let mut fading = quiet(0);
    fading.ticks_faded = vec![true, false];
    assert_eq!(step(&mut game, &fading, &still), vec![]);
    assert_eq!(game.next_play_state, None);
    fading.ticks_faded = vec![true, true];
    assert_eq!(step(&mut game, &fading, &still), vec![]);
    assert_eq!(game.next_play_state, Some(PlayStates::RoundingUp));
    assert_eq!(game.player_two.health.value, 2);

    assert_eq!(step(&mut game, &quiet(0), &still), vec![phase(PlayStates::RoundingUp)]);
    assert_eq!(game.play_state, PlayStates::RoundingUp);
    assert!(!game.game_over.0);
    assert_eq!(game.next_play_state, Some(PlayStates::Preparing));
    assert_eq!(game.round_counter.0, 1);

    assert_eq!(
        step(&mut game, &quiet(0), &still),
        vec![change(1), change(2), phase(PlayStates::Preparing), round(2)]
    );
    assert_eq!(game.play_state, PlayStates::Preparing);
    assert_eq!(game.round_counter.0, 2);
    assert_eq!(game.player_one.state.0, PlayerStates::Idle);
    assert_eq!(game.player_two.state.0, PlayerStates::Idle);
    assert_eq!(game.next_play_state, None);

    assert_eq!(step(&mut game, &press(vec![KeyCode::Enter]), &still), vec![]);
    assert_eq!(game.next_play_state, None);
    assert_eq!(step(&mut game, &press(vec![KeyCode::Space]), &still), vec![]);
    assert_eq!(game.next_play_state, Some(PlayStates::Countdown));
}

#[test]
fn a_buff_is_drawn_as_the_betting_ends_and_lost_as_the_fight_ends() {
    let mut game = betting();
    let mut bets = press(vec![KeyCode::KeyF, KeyCode::KeyJ]);
    bets.delta = 5_000_000_000;
    step(&mut game, &bets, &Chance::still());
    let mut dice = Chance::still();
    dice.buffs = (Buffes::GoldenBulletBuff, Buffes::LuckBuff);
    dice.shots = (Shot { marksmanship: 2, luck: 1 }, Shot { marksmanship: 2, luck: 1 });
    assert_eq!(
        step(&mut game, &quiet(0), &dice),
        vec![
            flash(1, "Golden bullet"),
            Event::Damage(DamageEvent { player: 1, value: 1 }),
            Event::Damage(DamageEvent { player: 2, value: 5 }),
            flash(1, "-1"),
            flash(2, "-5"),
            phase(PlayStates::Fighting),
            stat(1, Stats::Health, 2),
            stat(2, Stats::Health, 0),
            stat(2, Stats::Bullets, 1),
        ]
    );
    assert_eq!(game.player_one.buff.value, Some(Buffes::GoldenBulletBuff));
    assert_eq!(game.player_two.buff.value, None);
    assert_eq!(game.player_one.bullets.value, 2);
    assert_eq!(game.player_one.damage.value, 5);
    assert_eq!(game.player_one.health.value, 2);
    assert_eq!(game.player_two.health.value, 0);
    assert_eq!(step(&mut game, &quiet(0), &Chance::still()), vec![]);
    assert_eq!(game.next_play_state, Some(PlayStates::RoundingUp));
    let events = step(&mut game, &quiet(0), &Chance::still());
    assert_eq!(
        events,
        vec![
            Event::GameOver(GameOverEvent { player: Some(1), state: GameOvers::Winner }),
            phase(PlayStates::RoundingUp),
        ]
    );
    assert_eq!(game.player_one.buff.value, None);
    assert_eq!(game.player_one.damage.value, 1);
    assert!(game.game_over.0);
    assert_eq!(game.next_play_state, Some(PlayStates::GameOver));
    assert_eq!(game.round_counter.0, 1);
    assert_eq!(step(&mut game, &quiet(0), &Chance::still()), vec![phase(PlayStates::GameOver)]);
    assert_eq!(game.play_state, PlayStates::GameOver);
    assert_eq!(game.round_counter.0, 1);
    assert_eq!(game.player_one.state.0, PlayerStates::Attacking);
}

#[test]
fn a_decided_match_is_left_for_the_menu() {
    let mut game = Game::new();
    game.app_state = AppStates::InGame;
    game.play_state = PlayStates::GameOver;
    game.game_over.0 = true;
    game.round_counter.0 = 4;
    let still = Chance::still();
    assert_eq!(step(&mut game, &press(vec![KeyCode::Enter]), &still), vec![]);
    assert_eq!(game.next_app_state, Some(AppStates::Menu));
    assert_eq!(game.play_state, PlayStates::GameOver);
    assert_eq!(step(&mut game, &quiet(0), &still), vec![round(1)]);
    assert_eq!(game.app_state, AppStates::Menu);
    assert_eq!(game.next_play_state, Some(PlayStates::Paused));
    assert_eq!(game.round_counter.0, 1);
    assert!(!game.game_over.0);
    assert_eq!(step(&mut game, &quiet(0), &still), vec![phase(PlayStates::Paused)]);
    assert_eq!(game.play_state, PlayStates::Paused);
    assert_eq!(game.next_play_state, None);
    assert_eq!(game.next_app_state, None);
}

#[test]
fn a_new_match_goes_by_the_loading_screen() {
    let mut game = Game::new();
    game.app_state = AppStates::InGame;
    game.play_state = PlayStates::GameOver;
    let still = Chance::still();
    let mut loading = AssetsLoading::default();
    plugin(&mut game, &mut loading, &press(vec![KeyCode::Enter, KeyCode::Space]), &still);
    assert_eq!(game.next_app_state, Some(AppStates::Loading));
    plugin(&mut game, &mut loading, &quiet(0), &still);
    assert_eq!(game.app_state, AppStates::Loading);
    assert_eq!(game.next_app_state, None);
    assert_eq!(loading.0.len(), 14);
    let mut input = quiet(0);
    input.load_states = loading.0.iter().map(|asset| (*asset, LoadState::Loading)).collect();
    plugin(&mut game, &mut loading, &input, &still);
    assert_eq!(game.next_app_state, None);
    input.load_states = loading.0.iter().map(|asset| (*asset, LoadState::Loaded)).collect();
    plugin(&mut game, &mut loading, &input, &still);
    assert_eq!(game.next_app_state, Some(AppStates::Menu));
    assert_eq!(loading.0, vec![]);
    plugin(&mut game, &mut loading, &quiet(0), &still);
    assert_eq!(game.app_state, AppStates::Menu);
}

#[test]
fn the_last_round_is_announced_and_then_decided() {
    let mut game = Game::new();
    game.app_state = AppStates::InGame;
    game.play_state = PlayStates::RoundingUp;
    game.round_counter.0 = 5;
    game.next_play_state = Some(PlayStates::Preparing);
    let still = Chance::still();
    assert_eq!(
        step(&mut game, &quiet(0), &still),
        vec![
            change(1),
            change(2),
            Event::Alert(AlertEvent { value: "Last round!".to_string() }),
            phase(PlayStates::Preparing),
            round(6),
        ]
    );
    assert_eq!(game.round_counter.0, 6);
    game.play_state = PlayStates::Fighting;
    game.next_play_state = Some(PlayStates::RoundingUp);
    game.player_two.health.value = 1;
    assert_eq!(
        step(&mut game, &quiet(0), &still),
        vec![
            Event::GameOver(GameOverEvent { player: Some(1), state: GameOvers::Winner }),
            phase(PlayStates::RoundingUp),
        ]
    );
    assert_eq!(game.next_play_state, Some(PlayStates::GameOver));
}

#[test]
fn asking_for_the_phase_the_match_is_in_changes_nothing() {
    let mut game = betting();
    game.player_one.state.0 = PlayerStates::Buffing;
    game.next_play_state = Some(PlayStates::Betting);
    game.next_app_state = Some(AppStates::InGame);
    let before = game;
    let mut dice = Chance::still();
    dice.buffs = (Buffes::LuckBuff, Buffes::LuckBuff);
    assert_eq!(step(&mut game, &quiet(0), &dice), vec![]);
    assert_eq!(game.player_one, before.player_one);
    assert_eq!(game.betting_timer, before.betting_timer);
    assert_eq!(game.next_play_state, None);
    assert_eq!(game.next_app_state, None);
}

#[test]
fn real_dice_give_one_of_the_outcomes_of_rigged_dice() {
    for _ in 0..50 {
        let mut game = betting();
        let mut bets = press(vec![KeyCode::KeyS, KeyCode::KeyL]);
        bets.delta = 5_000_000_000;
        let mut loading = AssetsLoading::default();
        assert!(run(&mut game, &mut loading, &bets).is_some());
        let before = game;
        let events = run(&mut game, &mut loading, &quiet(0)).unwrap();
        let mut matched = false;
        for buff in 0..6u8 {
            for (at_one, at_two) in [(1u8, 1u8), (1, 2), (2, 1), (2, 2)] {
                let mut dice = Chance::still();
                dice.buffs.1 = Buffes::from_index(buff);
                dice.shots.0 = Shot { marksmanship: at_one, luck: 1 };
                dice.shots.1 = Shot { marksmanship: at_two, luck: 1 };
                let mut rigged = before;
                if step(&mut rigged, &quiet(0), &dice) == events && rigged == game {
                    matched = true;
                }
            }
        }
        assert!(matched, "{:?}", events);
    }
}

#[test]
fn a_frame_is_refused_where_a_number_would_outgrow_its_type() {
    let mut loading = AssetsLoading(vec![Asset::BgSprite]);
    let mut game = Game::new();
    game.app_state = AppStates::InGame;
    game.play_state = PlayStates::RoundingUp;
    game.next_play_state = Some(PlayStates::Preparing);
    game.round_counter.0 = 255;
    assert!(game.turning() && !game.roomy() && !game.steady());
    let before = game;
    assert_eq!(run(&mut game, &mut loading, &press(vec![KeyCode::Enter])), None);
    assert_eq!(game, before);
    assert_eq!(loading.0, vec![Asset::BgSprite]);
    game.game_over.0 = true;
    assert_eq!(
        run(&mut game, &mut loading, &quiet(0)),
        Some(vec![phase(PlayStates::Preparing)])
    );

    let mut game = Game::new();
    game.app_state = AppStates::InGame;
    game.play_state = PlayStates::Fighting;
    game.next_play_state = Some(PlayStates::RoundingUp);
    game.round_counter.0 = 2;
    game.player_one.luck.value.value = 27;
    game.player_two.luck.value.value = 27;
    game.player_one.state.0 = PlayerStates::Buffing;
    game.player_two.state.0 = PlayerStates::Buffing;
    game.player_two.dodges.value = 255;
    let before = game;
    let mut refused = 0;
    let mut run_through = 0;
    for _ in 0..400 {
        let mut game = before;
        match run(&mut game, &mut loading, &quiet(0)) {
            None => {
                refused += 1;
                assert_eq!(game, before);
            }
            Some(events) => {
                run_through += 1;
                assert_eq!(game.player_two.dodges.value, 255);
                assert!(events.contains(&flash(2, "+0 dodge")));
            }
        }
    }
    assert!(refused > 0 && run_through > 0);
}

#[test]
fn a_frame_without_a_new_phase_needs_no_room() {
    let mut loading = AssetsLoading::default();
    for spoil in [
        (|game: &mut Game| game.player_one.damage.value = 255) as fn(&mut Game),
        |game| game.player_one.bullets.value = 255,
        |game| game.player_two.dodges.value = 255,
        |game| game.player_two.marksmanship.value.value = 255,
        |game| game.player_two.luck.value.value = 255,
        |game| game.round_counter.0 = 255,
    ] {
        for play_state in [
            PlayStates::Paused,
            PlayStates::Preparing,
            PlayStates::Countdown,
            PlayStates::Betting,
            PlayStates::Fighting,
            PlayStates::RoundingUp,
            PlayStates::GameOver,
        ] {
            let mut game = Game::new();
            game.app_state = AppStates::InGame;
            game.play_state = play_state;
            game.player_one.state.0 = PlayerStates::Buffing;
            spoil(&mut game);
            assert!(game.steady() && !game.roomy());
            assert!(run(&mut game, &mut loading, &press(vec![KeyCode::KeyL])).is_some());
            game.next_play_state = Some(play_state);
            game.next_app_state = Some(AppStates::InGame);
            assert!(run(&mut game, &mut loading, &quiet(1)).is_some());
        }
    }
}

#[test]
fn a_frame_is_refused_where_the_match_is_not_well_formed() {
    let mut loading = AssetsLoading(vec![Asset::BgSprite]);
    for spoil in [
        (|game: &mut Game| game.player_one.value = 2) as fn(&mut Game),
        |game| game.player_two.value = 3,
        |game| game.player_one.marksmanship.value.value = 1,
        |game| game.player_two.luck.value.value = 0,
    ] {
        let mut game = Game::new();
        spoil(&mut game);
        assert!(!game.is_wf() && !game.steady());
        let before = game;
        assert_eq!(run(&mut game, &mut loading, &press(vec![KeyCode::Enter])), None);
        assert_eq!(game, before);
    }
}

#[test]
fn a_frame_is_refused_where_an_asset_that_is_waited_for_has_failed() {
    let mut loading = AssetsLoading(vec![Asset::BgSprite, Asset::MenuAudio]);
    let mut input = quiet(0);
    input.load_states =
        vec![(Asset::BgSprite, LoadState::Loaded), (Asset::MenuAudio, LoadState::Failed)];
    let mut game = Game::new();
    assert_eq!(run(&mut game, &mut loading, &input), Some(vec![]));
    assert!(can_update(&game, &loading, &input));
    game.app_state = AppStates::Loading;
    assert!(!can_update(&game, &loading, &input));
    assert_eq!(run(&mut game, &mut loading, &input), None);
    assert_eq!(loading.0.len(), 2);
    input.load_states[1] = (Asset::ShootAudio, LoadState::Failed);
    assert_eq!(run(&mut game, &mut loading, &input), Some(vec![]));
    input.load_states[1] = (Asset::MenuAudio, LoadState::Loaded);
    assert_eq!(run(&mut game, &mut loading, &input), Some(vec![]));
    assert_eq!(game.next_app_state, Some(AppStates::Menu));
    assert_eq!(loading.0, vec![]);

    let mut game = Game::new();
    game.next_app_state = Some(AppStates::Loading);
    input.load_states = vec![(Asset::DodgeAudio, LoadState::Failed)];
    assert!(can_update(&game, &loading, &input));
    input.load_states = vec![
        (Asset::DodgeAudio, LoadState::Failed),
        (Asset::MainThemeAudio, LoadState::Loaded),
        (Asset::MenuAudio, LoadState::Loading),
        (Asset::ClickAudio, LoadState::Loaded),
        (Asset::MenuTransitionAudio, LoadState::Loaded),
        (Asset::ShootAudio, LoadState::Loading),
    ];
    assert!(!can_update(&game, &loading, &input));
    assert_eq!(run(&mut game, &mut loading, &input), None);
    assert_eq!(game.next_app_state, Some(AppStates::Loading));
    assert_eq!(loading.0, vec![]);
    game.next_app_state = Some(AppStates::InGame);
    assert!(can_update(&game, &loading, &input));
}

#[test]
fn dice_are_drawn_for_the_frame_that_needs_them() {
    let loading = AssetsLoading::default();
    let mut game = betting();
    assert_eq!(draw(&game, &loading, &quiet(0)), (Chance::still(), true));
    game.next_play_state = Some(PlayStates::Fighting);
    game.player_one.state.0 = PlayerStates::Attacking;
    game.player_two.state.0 = PlayerStates::Buffing;
    game.player_one.marksmanship.value.value = 3;
    let mut buffs = Vec::new();
    let mut shots_at_two = Vec::new();
    for _ in 0..600 {
        let (chance, begins) = draw(&game, &loading, &quiet(0));
        assert!(begins);
        assert_eq!(chance.buffs.0, Buffes::HealBuff);
        assert_eq!(chance.bullet_rolls, (1, 1));
        assert_eq!(chance.dodge_rolls, (1, 1));
        if chance.buffs.1 == Buffes::GoldenBulletBuff
            || chance.buffs.1 == Buffes::IncreaseDamageBuff
        {
            assert!(chance.shots.0.marksmanship < 100 && chance.shots.0.luck < 50);
        } else {
            assert_eq!(chance.shots.0, Shot { marksmanship: 1, luck: 1 });
        }
        let faces = if chance.buffs.1 == Buffes::LuckBuff { 100 } else { 50 };
        assert!(chance.shots.1.marksmanship < 3 && chance.shots.1.luck < faces);
        if !buffs.contains(&chance.buffs.1) {
            buffs.push(chance.buffs.1);
        }
        if !shots_at_two.contains(&chance.shots.1.marksmanship) {
            shots_at_two.push(chance.shots.1.marksmanship);
        }
    }
    assert_eq!(buffs.len(), 6);
    assert_eq!(shots_at_two.len(), 2);
}

#[test]
fn the_helpers_of_a_match_ask_for_their_phases() {
    let mut next = None;
    launch_game(&mut next);
    assert_eq!(next, Some(PlayStates::Countdown));
    pause_game(&mut next);
    assert_eq!(next, Some(PlayStates::Paused));
    next_play_state(&PlayStates::Fighting, &mut next);
    assert_eq!(next, Some(PlayStates::RoundingUp));
    let mut next = None;
    wait_for_input_to_next_play_state(&press(vec![KeyCode::Enter]), &PlayStates::Preparing, &mut next);
    assert_eq!(next, None);
    wait_for_input_to_next_play_state(&press(vec![KeyCode::Space]), &PlayStates::Preparing, &mut next);
    assert_eq!(next, Some(PlayStates::Countdown));
    let mut next = None;
    listen_game_overs(&vec![change(1), flash(1, "-1")], &mut next);
    assert_eq!(next, None);
    let over = Event::GameOver(GameOverEvent { player: None, state: GameOvers::Tie });
    listen_game_overs(&vec![change(1), over], &mut next);
    assert_eq!(next, Some(PlayStates::GameOver));
    let mut rounds = hit_a_key::game::resources::RoundCounter(5);
    let mut latch = hit_a_key::game::resources::GameOver(true);
    reset_game(&mut rounds, &mut latch);
    assert_eq!((rounds.0, latch.0), (1, false));
    let (one, two) = spawn_players();
    assert_eq!(one, Player::new(1, player_one_keys()));
    assert_eq!(two, Player::new(2, player_two_keys()));
}

#[test]
fn a_frame_tells_what_it_changed_of_what_the_screen_shows() {
    let before = Game::new();
    let mut after = before;
    let mut events = vec![change(1)];
    tell_changes(&before, &after, &mut events);
    assert_eq!(events, vec![change(1)]);
    after.play_state = PlayStates::Fighting;
    after.round_counter.0 = 3;
    after.player_one.dodges.value = 0;
    after.player_two.health.value = 1;
    after.player_two.bullets.value = 4;
    after.player_two.luck.value.value = 100;
    after.player_one.state.0 = PlayerStates::Dodging;
    after.game_over.0 = true;
    tell_changes(&before, &after, &mut events);
    assert_eq!(
        events,
        vec![
            change(1),
            phase(PlayStates::Fighting),
            round(3),
            stat(1, Stats::Dodges, 0),
            stat(2, Stats::Health, 1),
            stat(2, Stats::Bullets, 4),
        ]
    );
    let mut events = vec![];
    tell_changes(&after, &before, &mut events);
    assert_eq!(
        events,
        vec![
            phase(PlayStates::Paused),
            round(1),
            stat(1, Stats::Dodges, 1),
            stat(2, Stats::Health, 3),
            stat(2, Stats::Bullets, 2),
        ]
    );
}

#[test]
fn a_bar_shows_what_is_missing_of_three() {
    let shown: Vec<usize> =
        [0u8, 1, 2, 3, 4, 255].iter().map(|v| health_bar_update(&Health { value: *v })).collect();
    assert_eq!(shown, vec![3, 2, 1, 0, 0, 0]);
    assert_eq!(mana_bar_update(&Bullets { value: 2 }), 1);
    assert_eq!(stamina_bar_update(&Dodges { value: 1 }), 2);
}

#[test]
fn events_are_kept_in_the_order_in_which_they_were_emitted() {
    let mut events = vec![change(1)];
    emit(&mut events, tick_player(2, "Dodged!"));
    emit_all(&mut events, vec![change(2), change(1)]);
    emit_all(&mut events, vec![]);
    assert_eq!(events, vec![change(1), flash(2, "Dodged!"), change(2), change(1)]);
    assert!(events_empty(&events, EventKind::Damage));
    assert!(!events_empty(&events, EventKind::TickPlayer));
    assert!(!events_empty(&events, EventKind::PlayerStateChange));
    assert!(events_empty(&vec![], EventKind::TickPlayer));
    assert_eq!(
        Event::Depleted(DepletedEvent { player: 1, source: DepletedSources::Bullets }).kind(),
        EventKind::Depleted
    );
    assert_eq!(Event::Dodged(DodgedEvent { player: 1 }).kind(), EventKind::Dodged);
    assert!(all(&vec![]));
    assert!(!all(&vec![false]));
}
