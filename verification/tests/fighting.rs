use hit_a_key::game::chance::Shot;
use hit_a_key::game::components::{Buffes, Player, PlayerStates};
use hit_a_key::game::events::{
    damage_tick, DamageEvent, DepletedEvent, DepletedSources, DodgedEvent, Event, MissedEvent,
    TickPlayerEvent,
};
use hit_a_key::game::settings::{player_one_keys, player_two_keys};
use hit_a_key::game::systems::in_game::fighting::{
    check_fighting_phase_ended, damage_reset, decrease_bullets, decrease_dodges, depleted, fight,
    listen_damage_event, listen_depleted_event, listen_dodged_event, listen_missed_event,
    luck_reset, marksmanship_reset, remove_buffes, shoot,
};

fn players(one: PlayerStates, two: PlayerStates) -> (Player, Player) {
    let mut player_one = Player::new(1, player_one_keys());
    let mut player_two = Player::new(2, player_two_keys());
    player_one.state.0 = one;
    player_two.state.0 = two;
    (player_one, player_two)
}

fn hit() -> Shot {
    Shot { marksmanship: 99, luck: 1 }
}

fn miss() -> Shot {
    Shot { marksmanship: 1, luck: 49 }
}

fn tick(player: u8, value: &str) -> Event {
    Event::TickPlayer(TickPlayerEvent { player, value: value.to_string() })
}

#[test]
fn an_attack_on_an_idle_player_that_lands_deals_the_damage_of_the_attacker() {
    let (mut one, two) = players(PlayerStates::Attacking, PlayerStates::Idle);
    one.damage.value = 4;
    assert_eq!(
        fight(&one, &two, miss(), hit()),
        vec![Event::Damage(DamageEvent { player: 2, value: 4 })]
    );
}

#[test]
fn an_attack_that_does_not_land_is_a_miss_at_the_defender() {
    let (one, two) = players(PlayerStates::Attacking, PlayerStates::Idle);
    assert_eq!(fight(&one, &two, hit(), miss()), vec![Event::Missed(MissedEvent { player: 2 })]);
}

#[test]
fn equal_dice_are_a_miss() {
    let (one, two) = players(PlayerStates::Idle, PlayerStates::Attacking);
    let shot = Shot { marksmanship: 7, luck: 7 };
    assert_eq!(fight(&one, &two, shot, hit()), vec![Event::Missed(MissedEvent { player: 1 })]);
}

#[test]
fn a_dodge_defeats_an_attack_whatever_the_dice() {
    let (one, two) = players(PlayerStates::Dodging, PlayerStates::Attacking);
    assert_eq!(fight(&one, &two, hit(), hit()), vec![Event::Dodged(DodgedEvent { player: 1 })]);
    assert_eq!(fight(&one, &two, miss(), miss()), vec![Event::Dodged(DodgedEvent { player: 1 })]);
    let (one, two) = players(PlayerStates::Attacking, PlayerStates::Dodging);
    assert_eq!(fight(&one, &two, hit(), hit()), vec![Event::Dodged(DodgedEvent { player: 2 })]);
}

#[test]
fn two_attacks_are_resolved_each_on_its_own_dice() {
    let (mut one, mut two) = players(PlayerStates::Attacking, PlayerStates::Attacking);
    one.damage.value = 2;
    two.damage.value = 5;
    assert_eq!(
        fight(&one, &two, hit(), hit()),
        vec![
            Event::Damage(DamageEvent { player: 1, value: 5 }),
            Event::Damage(DamageEvent { player: 2, value: 2 }),
        ]
    );
    assert_eq!(
        fight(&one, &two, miss(), hit()),
        vec![
            Event::Missed(MissedEvent { player: 2 }),
            Event::Damage(DamageEvent { player: 2, value: 2 }),
        ]
    );
    assert_eq!(
        fight(&one, &two, hit(), miss()),
        vec![
            Event::Damage(DamageEvent { player: 1, value: 5 }),
            Event::Missed(MissedEvent { player: 1 }),
        ]
    );
    assert_eq!(
        fight(&one, &two, miss(), miss()),
        vec![Event::Missed(MissedEvent { player: 2 }), Event::Missed(MissedEvent { player: 1 })]
    );
}

#[test]
fn an_attack_is_rolled_against_every_defender_who_does_not_dodge() {
    for defender in [
        PlayerStates::Idle,
        PlayerStates::NotAttacking,
        PlayerStates::NotDodging,
        PlayerStates::Buffing,
    ] {
        let (one, two) = players(PlayerStates::Attacking, defender);
        assert_eq!(
            fight(&one, &two, hit(), hit()),
            vec![Event::Damage(DamageEvent { player: 2, value: 1 })]
        );
        let (one, two) = players(defender, PlayerStates::Attacking);
        assert_eq!(
            fight(&one, &two, miss(), hit()),
            vec![Event::Missed(MissedEvent { player: 1 })]
        );
    }
}

#[test]
fn without_an_attack_nothing_happens() {
    let quiet = [
        PlayerStates::Idle,
        PlayerStates::NotAttacking,
        PlayerStates::Dodging,
        PlayerStates::NotDodging,
        PlayerStates::Buffing,
    ];
    for one in quiet {
        for two in quiet {
            let (one, two) = players(one, two);
            assert_eq!(fight(&one, &two, hit(), hit()), vec![]);
        }
    }
}

#[test]
fn a_shot_at_a_player_who_does_not_attack_names_the_defender() {
    let (one, two) = players(PlayerStates::Idle, PlayerStates::Idle);
    assert_eq!(shoot(&two, &one, hit()), Event::Damage(DamageEvent { player: 1, value: 1 }));
    assert_eq!(shoot(&two, &one, miss()), Event::Missed(MissedEvent { player: 1 }));
    let (one, two) = players(PlayerStates::Dodging, PlayerStates::Idle);
    assert_eq!(shoot(&two, &one, hit()), Event::Dodged(DodgedEvent { player: 1 }));
}

#[test]
fn a_miss_between_two_attackers_names_the_one_who_shot() {
    let (one, two) = players(PlayerStates::Attacking, PlayerStates::Attacking);
    assert_eq!(shoot(&two, &one, miss()), Event::Missed(MissedEvent { player: 2 }));
    assert_eq!(shoot(&one, &two, miss()), Event::Missed(MissedEvent { player: 1 }));
    assert_eq!(shoot(&one, &two, hit()), Event::Damage(DamageEvent { player: 2, value: 1 }));
}

#[test]
fn a_denied_attack_is_out_of_bullets() {
    let (one, two) = players(PlayerStates::NotAttacking, PlayerStates::Idle);
    assert_eq!(
        depleted(&one, &two),
        vec![Event::Depleted(DepletedEvent { player: 1, source: DepletedSources::Bullets })]
    );
    assert_eq!(depleted(&two, &one), vec![]);
}

#[test]
fn a_denied_dodge_shows_only_under_attack() {
    let (one, two) = players(PlayerStates::Attacking, PlayerStates::NotDodging);
    assert_eq!(
        depleted(&two, &one),
        vec![Event::Depleted(DepletedEvent { player: 2, source: DepletedSources::Dodges })]
    );
    let (one, two) = players(PlayerStates::Idle, PlayerStates::NotDodging);
    assert_eq!(depleted(&two, &one), vec![]);
    let (one, two) = players(PlayerStates::NotAttacking, PlayerStates::NotDodging);
    assert_eq!(depleted(&two, &one), vec![]);
}

#[test]
fn damage_is_taken_from_health_and_ticked() {
    let (mut one, _) = players(PlayerStates::Idle, PlayerStates::Attacking);
    let events = vec![
        Event::Damage(DamageEvent { player: 2, value: 3 }),
        Event::Damage(DamageEvent { player: 1, value: 1 }),
        Event::Missed(MissedEvent { player: 1 }),
        Event::Damage(DamageEvent { player: 1, value: 1 }),
    ];
    let ticks = listen_damage_event(&events, &mut one);
    assert_eq!(one.health.value, 1);
    assert_eq!(ticks, vec![tick(1, "-1"), tick(1, "-1")]);
}

#[test]
fn health_never_goes_below_nothing() {
    let (mut one, _) = players(PlayerStates::Idle, PlayerStates::Attacking);
    let events = vec![
        Event::Damage(DamageEvent { player: 1, value: 5 }),
        Event::Damage(DamageEvent { player: 1, value: 200 }),
        Event::Damage(DamageEvent { player: 1, value: 200 }),
    ];
    let ticks = listen_damage_event(&events, &mut one);
    assert_eq!(one.health.value, 0);
    assert_eq!(ticks, vec![tick(1, "-5"), tick(1, "-200"), tick(1, "-200")]);
    let before = one;
    assert_eq!(listen_damage_event(&vec![], &mut one), vec![]);
    assert_eq!(one, before);
}

#[test]
fn damage_ticks_spell_the_number() {
    assert_eq!(damage_tick(1, 0), tick(1, "-0"));
    assert_eq!(damage_tick(1, 1), tick(1, "-1"));
    assert_eq!(damage_tick(2, 9), tick(2, "-9"));
    assert_eq!(damage_tick(2, 10), tick(2, "-10"));
    assert_eq!(damage_tick(2, 99), tick(2, "-99"));
    assert_eq!(damage_tick(1, 100), tick(1, "-100"));
    assert_eq!(damage_tick(1, 105), tick(1, "-105"));
    assert_eq!(damage_tick(1, 255), tick(1, "-255"));
}

#[test]
fn misses_dodges_and_lacks_are_ticked_at_their_player() {
    let (one, two) = players(PlayerStates::Idle, PlayerStates::Idle);
    let events = vec![
        Event::Missed(MissedEvent { player: 1 }),
        Event::Dodged(DodgedEvent { player: 2 }),
        Event::Depleted(DepletedEvent { player: 1, source: DepletedSources::Dodges }),
        Event::Depleted(DepletedEvent { player: 2, source: DepletedSources::Bullets }),
        Event::Missed(MissedEvent { player: 1 }),
    ];
    assert_eq!(listen_missed_event(&events, &one), vec![tick(1, "Missed!"), tick(1, "Missed!")]);
    assert_eq!(listen_missed_event(&events, &two), vec![]);
    assert_eq!(listen_dodged_event(&events, &one), vec![]);
    assert_eq!(listen_dodged_event(&events, &two), vec![tick(2, "Dodged!")]);
    assert_eq!(listen_depleted_event(&events, &one), vec![tick(1, "\nCan't dodge!")]);
    assert_eq!(listen_depleted_event(&events, &two), vec![tick(2, "\nOut of mana!")]);
}

#[test]
fn an_attack_costs_a_bullet_and_a_dodge_costs_a_dodge() {
    let (mut one, mut two) = players(PlayerStates::Attacking, PlayerStates::Dodging);
    decrease_bullets(&mut one);
    decrease_dodges(&mut one);
    assert_eq!((one.bullets.value, one.dodges.value), (1, 1));
    decrease_bullets(&mut two);
    decrease_dodges(&mut two);
    assert_eq!((two.bullets.value, two.dodges.value), (2, 0));
}

#[test]
fn resources_never_go_below_nothing() {
    let (mut one, mut two) = players(PlayerStates::Attacking, PlayerStates::Dodging);
    for spent in 1..=5u8 {
        decrease_bullets(&mut one);
        decrease_dodges(&mut two);
        assert_eq!(one.bullets.value, 2u8.saturating_sub(spent));
        assert_eq!(two.dodges.value, 1u8.saturating_sub(spent));
    }
    assert_eq!(one.bullets.value, 0);
    assert_eq!(two.dodges.value, 0);
}

#[test]
fn a_denied_bet_costs_nothing() {
    for state in [
        PlayerStates::Idle,
        PlayerStates::NotAttacking,
        PlayerStates::NotDodging,
        PlayerStates::Buffing,
    ] {
        let (mut one, _) = players(state, PlayerStates::Idle);
        let before = one;
        decrease_bullets(&mut one);
        decrease_dodges(&mut one);
        assert_eq!(one, before);
    }
}

#[test]
fn the_end_of_the_fight_takes_buffs_and_resets_the_stats() {
    let (mut one, mut two) = players(PlayerStates::Attacking, PlayerStates::Buffing);
    for player in [&mut one, &mut two] {
        player.buff.value = Some(Buffes::LuckBuff);
        player.damage.value = 5;
        player.luck.value.value = 100;
        player.marksmanship.value.value = 150;
        remove_buffes(player);
        damage_reset(player);
        luck_reset(player);
        marksmanship_reset(player);
    }
    assert_eq!(one.buff.value, None);
    assert_eq!(
        (one.damage.value, one.luck.value.value, one.marksmanship.value.value),
        (1, 50, 100)
    );
    assert_eq!(two.buff.value, None);
    assert_eq!(
        (two.damage.value, two.luck.value.value, two.marksmanship.value.value),
        (5, 100, 150)
    );
}

#[test]
fn the_fight_is_over_when_every_tick_has_faded() {
    assert!(check_fighting_phase_ended(&vec![]));
    assert!(check_fighting_phase_ended(&vec![true, true]));
    assert!(!check_fighting_phase_ended(&vec![true, false, true]));
}
