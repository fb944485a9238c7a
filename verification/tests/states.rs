use hit_a_key::game::states::PlayStates;

#[test]
fn next_follows_the_cycle() {
    assert_eq!(PlayStates::Preparing.next(), PlayStates::Countdown);
    assert_eq!(PlayStates::Countdown.next(), PlayStates::Betting);
    assert_eq!(PlayStates::Betting.next(), PlayStates::Fighting);
    assert_eq!(PlayStates::Fighting.next(), PlayStates::RoundingUp);
    assert_eq!(PlayStates::RoundingUp.next(), PlayStates::Preparing);
}

#[test]
fn next_rests_on_paused_and_game_over() {
    assert_eq!(PlayStates::Paused.next(), PlayStates::Paused);
    assert_eq!(PlayStates::GameOver.next(), PlayStates::GameOver);
}
