use hit_a_key::game::chance::Chance;
use hit_a_key::game::input::{Input, KeyCode};
use hit_a_key::game::resources::{
    AssetsLoading, BettingTimer, CountdownTimer, GameOver, RoundCounter, Timer,
};
use hit_a_key::game::states::{AppStates, PlayStates};
use hit_a_key::game::systems::in_game::countdown::{countdown, plugin, reset_countdown_timer};
use hit_a_key::game::systems::Schedule;
use hit_a_key::game::Game;

fn frame(delta: u64) -> Input {
    Input { keys: vec![], delta, ticks_faded: vec![], load_states: vec![] }
}

#[test]
fn a_timer_collects_time_up_to_its_duration() {
    let mut timer = Timer::new(10);
    assert_eq!(timer.remaining(), 10);
    timer.tick(4);
    assert_eq!(timer, Timer { duration: 10, elapsed: 4, done: false, done_this_tick: false });
    assert!(!timer.finished());
    assert!(!timer.just_finished());
    assert_eq!(timer.remaining(), 6);
    timer.tick(6);
    assert_eq!(timer, Timer { duration: 10, elapsed: 10, done: true, done_this_tick: true });
    assert!(timer.finished());
    assert!(timer.just_finished());
    assert_eq!(timer.remaining(), 0);
}

#[test]
fn a_timer_reports_its_end_in_one_frame_only() {
    let mut timer = Timer::new(10);
    timer.tick(25);
    assert!(timer.just_finished());
    assert_eq!(timer.elapsed, 10);
    for _ in 0..3 {
        timer.tick(25);
        assert!(timer.finished());
        assert!(!timer.just_finished());
        assert_eq!(timer.elapsed, 10);
    }
}

#[test]
fn a_reset_timer_runs_again() {
    let mut timer = Timer::new(10);
    timer.tick(10);
    timer.reset();
    assert_eq!(timer, Timer::new(10));
    timer.tick(9);
    assert!(!timer.just_finished());
    timer.tick(1);
    assert!(timer.just_finished());
}

#[test]
fn a_timer_without_duration_ends_with_the_first_frame() {
    let mut timer = Timer::new(0);
    timer.tick(0);
    assert!(timer.just_finished());
}

#[test]
fn a_timer_takes_the_longest_frame() {
    let mut timer = Timer::new(u64::MAX);
    timer.tick(u64::MAX - 1);
    assert!(!timer.finished());
    timer.tick(u64::MAX);
    assert!(timer.just_finished());
    assert_eq!(timer.elapsed, u64::MAX);
}

#[test]
fn the_timers_of_the_match_last_five_and_three_seconds() {
    assert_eq!(BettingTimer::default().0, Timer::new(5_000_000_000));
    assert_eq!(CountdownTimer::default().0, Timer::new(3_000_000_000));
    assert_eq!(RoundCounter::default(), RoundCounter(1));
    assert_eq!(GameOver::default(), GameOver(false));
    assert_eq!(AssetsLoading::default(), AssetsLoading(vec![]));
}

#[test]
fn the_countdown_asks_for_the_betting_and_starts_anew() {
    let mut timer = CountdownTimer::default();
    let mut next = None;
    countdown(&PlayStates::Countdown, &mut next, 2_999_999_999, &mut timer);
    assert_eq!(next, None);
    assert_eq!(timer.0.elapsed, 2_999_999_999);
    countdown(&PlayStates::Countdown, &mut next, 1, &mut timer);
    assert_eq!(next, Some(PlayStates::Betting));
    assert_eq!(timer.0, Timer::new(3_000_000_000));
    timer.0.tick(5);
    reset_countdown_timer(&mut timer);
    assert_eq!(timer.0, Timer::new(3_000_000_000));
}

#[test]
fn the_countdown_phase_runs_on_its_timer_alone() {
    let mut game = Game::new();
    game.play_state = PlayStates::Countdown;
    game.countdown_timer.0.tick(1_000);
    let mut events = vec![];
    let chance = Chance::still();
    plugin(Schedule::OnEnter, &mut game, &frame(0), &chance, &mut events);
    assert_eq!(game.countdown_timer.0, Timer::new(3_000_000_000));
    let mut input = frame(1_500_000_000);
    input.keys = vec![KeyCode::Space, KeyCode::Enter, KeyCode::KeyS];
    plugin(Schedule::Update, &mut game, &input, &chance, &mut events);
    assert_eq!(game.next_play_state, None);
    plugin(Schedule::Update, &mut game, &input, &chance, &mut events);
    assert_eq!(game.next_play_state, Some(PlayStates::Betting));
    let before = game;
    plugin(Schedule::OnExit, &mut game, &input, &chance, &mut events);
    assert_eq!(game, before);
    assert_eq!(events, vec![]);
    assert_eq!(game.app_state, AppStates::Menu);
}
