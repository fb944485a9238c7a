use hit_a_key::game::chance::{Chance, Shot};
use hit_a_key::game::components::{
    Buff, Buffes, Bullets, Damage, Dice, Dodges, HandTextureIndices, Health, KeyAssignment, Luck,
    Marksmanship, Player, PlayerState, PlayerStates,
};
use hit_a_key::game::input::KeyCode;
use hit_a_key::game::settings::{player_one_keys, player_two_keys};
use hit_a_key::game::Game;

#[test]
fn roll_stays_below_the_value_of_the_dice() {
    for value in [2u8, 3, 7, 50, 100, 255] {
        let dice = Dice { value };
        for _ in 0..500 {
            let face = dice.roll();
            assert!(face >= 1, "face {} of a dice of {}", face, value);
            assert!(face < value, "face {} of a dice of {}", face, value);
        }
    }
}

#[test]
fn roll_of_the_smallest_dice_is_one() {
    let dice = Dice { value: 2 };
    for _ in 0..100 {
        assert_eq!(dice.roll(), 1);
    }
}

#[test]
fn roll_shows_more_than_one_face() {
    let dice = Dice { value: 100 };
    let first = dice.roll();
    let mut other = false;
    for _ in 0..500 {
        if dice.roll() != first {
            other = true;
        }
    }
    assert!(other);
}

#[test]
fn roll_reaches_the_lowest_and_the_highest_face() {
    let dice = Dice { value: 4 };
    let mut seen = [false; 4];
    for _ in 0..2000 {
        seen[dice.roll() as usize] = true;
    }
    assert_eq!(seen, [false, true, true, true]);
}

#[test]
fn add_assign_adds_the_faces() {
    let mut dice = Dice { value: 50 };
    dice.add_assign(Dice { value: 50 });
    assert_eq!(dice, Dice { value: 100 });
    dice.add_assign(Dice { value: 155 });
    assert_eq!(dice.value, 255);
}

#[test]
fn buffs_are_numbered_in_order() {
    assert_eq!(Buffes::from_index(0), Buffes::GoldenBulletBuff);
    assert_eq!(Buffes::from_index(1), Buffes::IncreaseDamageBuff);
    assert_eq!(Buffes::from_index(2), Buffes::HealBuff);
    assert_eq!(Buffes::from_index(3), Buffes::SuperHealBuff);
    assert_eq!(Buffes::from_index(4), Buffes::LuckBuff);
    assert_eq!(Buffes::from_index(5), Buffes::MarksmanshipBuff);
}

#[test]
fn sample_draws_every_buff() {
    let mut seen = Vec::new();
    for _ in 0..2000 {
        let buff = Buffes::sample();
        if !seen.contains(&buff) {
            seen.push(buff);
        }
    }
    assert_eq!(seen.len(), 6);
}

#[test]
fn defaults_of_the_components() {
    assert_eq!(Health::default(), Health { value: 3 });
    assert_eq!(Luck::default(), Luck { value: Dice { value: 50 } });
    assert_eq!(Marksmanship::default(), Marksmanship { value: Dice { value: 100 } });
    assert_eq!(Dodges::default(), Dodges { value: 1 });
    assert_eq!(Bullets::default(), Bullets { value: 2 });
    assert_eq!(Damage::default(), Damage { value: 1 });
    assert_eq!(Buff::default(), Buff { value: None });
    assert_eq!(PlayerStates::default(), PlayerStates::Idle);
    assert_eq!(PlayerState::default(), PlayerState(PlayerStates::Idle));
    assert_eq!(
        HandTextureIndices::default(),
        HandTextureIndices { buff: 0, idle: 1, shoot: 2, dodge: 3 }
    );
}

#[test]
fn a_new_player_has_the_defaults() {
    let player = Player::new(2, player_two_keys());
    assert_eq!(player.value, 2);
    assert_eq!(player.health.value, 3);
    assert_eq!(player.luck.value.value, 50);
    assert_eq!(player.marksmanship.value.value, 100);
    assert_eq!(player.damage.value, 1);
    assert_eq!(player.bullets.value, 2);
    assert_eq!(player.dodges.value, 1);
    assert_eq!(player.buff.value, None);
    assert_eq!(player.state.0, PlayerStates::Idle);
    assert_eq!(player.keys, KeyAssignment([KeyCode::KeyJ, KeyCode::KeyK, KeyCode::KeyL]));
    assert!(player.is_wf());
    assert!(player.roomy());
    assert!(!player.is_dead());
}

#[test]
fn hand_texture_follows_the_intent() {
    let indices = HandTextureIndices { idle: 10, shoot: 20, dodge: 30, buff: 40 };
    let index = |state| PlayerState(state).derive_hand_texture_index(&indices);
    assert_eq!(index(PlayerStates::Idle), 10);
    assert_eq!(index(PlayerStates::Attacking), 20);
    assert_eq!(index(PlayerStates::NotAttacking), 20);
    assert_eq!(index(PlayerStates::Dodging), 30);
    assert_eq!(index(PlayerStates::NotDodging), 30);
    assert_eq!(index(PlayerStates::Buffing), 40);
}

#[test]
fn keys_ask_for_attack_dodge_and_buff() {
    let keys = player_one_keys();
    assert_eq!(keys.derive_player_state(&KeyCode::KeyS), Some(PlayerStates::Attacking));
    assert_eq!(keys.derive_player_state(&KeyCode::KeyD), Some(PlayerStates::Dodging));
    assert_eq!(keys.derive_player_state(&KeyCode::KeyF), Some(PlayerStates::Buffing));
    assert_eq!(keys.derive_player_state(&KeyCode::KeyJ), None);
    assert_eq!(keys.derive_player_state(&KeyCode::Space), None);
    assert_eq!(keys.derive_player_state(&KeyCode::Other(7)), None);
}

#[test]
fn the_first_binding_of_a_key_wins() {
    let keys = KeyAssignment([KeyCode::Other(1), KeyCode::Other(1), KeyCode::Other(2)]);
    assert_eq!(keys.derive_player_state(&KeyCode::Other(1)), Some(PlayerStates::Attacking));
    assert_eq!(keys.derive_player_state(&KeyCode::Other(2)), Some(PlayerStates::Buffing));
}

#[test]
fn a_shot_lands_where_marksmanship_beats_luck() {
    assert!(Shot { marksmanship: 2, luck: 1 }.hits());
    assert!(!Shot { marksmanship: 2, luck: 2 }.hits());
    assert!(!Shot { marksmanship: 1, luck: 2 }.hits());
}

#[test]
fn a_drawn_shot_shows_faces_of_the_two_dice() {
    let mut attacker = Player::new(1, player_one_keys());
    let mut defender = Player::new(2, player_two_keys());
    attacker.marksmanship.value.value = 5;
    defender.luck.value.value = 3;
    for _ in 0..200 {
        let shot = Shot::draw(&attacker, &defender);
        assert!(1 <= shot.marksmanship && shot.marksmanship < 5);
        assert!(1 <= shot.luck && shot.luck < 3);
    }
}

#[test]
fn dice_are_drawn_only_where_the_frame_needs_them() {
    let mut game = Game::new();
    let mut chance = Chance::still();
    chance.draw_buffs(&game);
    chance.draw_shots(&game);
    assert_eq!(chance, Chance::still());
    game.round_counter.0 = 1;
    chance.draw_rolls(&game);
    assert_eq!(chance, Chance::still());
    game.player_one.luck.value.value = 2;
    game.player_two.luck.value.value = 2;
    game.round_counter.0 = 2;
    chance.draw_rolls(&game);
    assert_eq!(chance, Chance::still());
}

#[test]
fn shots_are_drawn_for_an_attack_that_is_not_dodged() {
    let mut game = Game::new();
    game.player_one.state.0 = PlayerStates::Attacking;
    game.player_one.marksmanship.value.value = 3;
    game.player_two.luck.value.value = 3;
    let mut other = false;
    for _ in 0..200 {
        let mut chance = Chance::still();
        chance.draw_shots(&game);
        assert_eq!(chance.shots.0, Shot { marksmanship: 1, luck: 1 });
        assert!(chance.shots.1.marksmanship < 3 && chance.shots.1.luck < 3);
        if chance.shots.1 != (Shot { marksmanship: 1, luck: 1 }) {
            other = true;
        }
    }
    assert!(other);
    game.player_two.state.0 = PlayerStates::Dodging;
    let mut chance = Chance::still();
    chance.draw_shots(&game);
    assert_eq!(chance, Chance::still());
}

#[test]
fn thrown_dice_show_a_face_whatever_lay_there_before() {
    let mut game = Game::new();
    game.player_one.state.0 = PlayerStates::Attacking;
    game.player_two.state.0 = PlayerStates::Attacking;
    game.player_one.marksmanship.value.value = 4;
    game.player_two.marksmanship.value.value = 3;
    game.player_one.luck.value.value = 5;
    game.player_two.luck.value.value = 2;
    game.round_counter.0 = 2;
    for _ in 0..200 {
        let mut chance = Chance::still();
        chance.shots = (Shot { marksmanship: 200, luck: 0 }, Shot { marksmanship: 0, luck: 200 });
        chance.bullet_rolls = (0, 255);
        chance.dodge_rolls = (255, 0);
        chance.draw_shots(&game);
        assert!((1..3).contains(&chance.shots.0.marksmanship));
        assert!((1..5).contains(&chance.shots.0.luck));
        assert!((1..4).contains(&chance.shots.1.marksmanship));
        assert_eq!(chance.shots.1.luck, 1);
        assert_eq!(chance.bullet_rolls, (0, 255));
        chance.draw_rolls(&game);
        assert!((1..5).contains(&chance.bullet_rolls.0) && (1..5).contains(&chance.dodge_rolls.0));
        assert_eq!((chance.bullet_rolls.1, chance.dodge_rolls.1), (1, 1));
        assert_eq!(chance.buffs, Chance::still().buffs);
    }
}

#[test]
fn dice_that_are_not_thrown_lie_as_they_lay() {
    let mut game = Game::new();
    game.player_one.state.0 = PlayerStates::Attacking;
    game.player_two.state.0 = PlayerStates::Dodging;
    game.player_one.luck.value.value = 0;
    game.player_two.marksmanship.value.value = 1;
    game.round_counter.0 = 3;
    let mut chance = Chance::still();
    chance.shots = (Shot { marksmanship: 200, luck: 0 }, Shot { marksmanship: 0, luck: 200 });
    chance.bullet_rolls = (0, 255);
    chance.dodge_rolls = (255, 0);
    let before = chance;
    chance.draw_shots(&game);
    chance.draw_rolls(&game);
    chance.draw_buffs(&game);
    assert_eq!(chance, before);
    game.round_counter.0 = 2;
    game.game_over.0 = true;
    chance.draw_rolls(&game);
    assert_eq!(chance, before);
}
