//! The fighting phase: the bets are resolved against each other.

use crate::game::chance::{Chance, Shot};
use crate::game::components::{Buff, Damage, Dice, Luck, Marksmanship, Player, PlayerStates};
use crate::game::events::{
    damage_text, damage_tick, emit, emit_all, tick, tick_player, DamageEvent, DepletedEvent,
    DepletedSources, DodgedEvent, Event, EventKind, EventView, MissedEvent,
};
use crate::game::input::Input;
use crate::game::settings::{DEFAULT_DAMAGE, DEFAULT_LUCK, DEFAULT_MARKSMANSHIP};
use crate::game::systems::in_game::next_play_state;
use crate::game::systems::{all, events_empty, spec_all, spec_events_empty, Schedule};
use crate::game::Game;
use vstd::prelude::*;

verus! {

/// The player that a shot of `attacker` at `defender` is said to have
/// missed: the defender, unless the defender attacks too. Where both attack,
/// the miss is told to the one who shot.
pub open spec fn missed_player(attacker: Player, defender: Player) -> u8 {
    if defender.state.0 == PlayerStates::Attacking {
        attacker.value
    } else {
        defender.value
    }
}

/// What comes of a shot of `attacker` at `defender`.
///
/// A defender who dodges escapes whatever the dice show, and the dodge
/// names them. Any other defender is hit for the damage of the attacker
/// where the shot lands, and the shot is a miss where it does not.
pub open spec fn shot_outcome(attacker: Player, defender: Player, shot: Shot) -> EventView {
    if defender.state.0 == PlayerStates::Dodging {
        EventView::Dodged(DodgedEvent { player: defender.value })
    } else if shot.hits() {
        EventView::Damage(DamageEvent { player: defender.value, value: attacker.damage.value })
    } else {
        EventView::Missed(MissedEvent { player: missed_player(attacker, defender) })
    }
}

/// What comes of the bets of the two players: one outcome for each player
/// who attacks, the shot at player one first. `at_one` is the shot fired at
/// player one, `at_two` the shot fired at player two.
pub open spec fn fight_outcome(
    player_one: Player,
    player_two: Player,
    at_one: Shot,
    at_two: Shot,
) -> Seq<EventView> {
    let first = if player_two.state.0 == PlayerStates::Attacking {
        seq![shot_outcome(player_two, player_one, at_one)]
    } else {
        seq![]
    };
    let second = if player_one.state.0 == PlayerStates::Attacking {
        seq![shot_outcome(player_one, player_two, at_two)]
    } else {
        seq![]
    };
    first + second
}

/// A dodge defeats an attack whatever the dice show: where one player dodges
/// and the other attacks, all that comes of the bets is one dodge of the
/// player who dodges.
pub proof fn lemma_dodge_defeats_attack(
    dodger: Player,
    attacker: Player,
    at_one: Shot,
    at_two: Shot,
)
    requires
        dodger.state.0 == PlayerStates::Dodging,
        attacker.state.0 == PlayerStates::Attacking,
    ensures
        fight_outcome(dodger, attacker, at_one, at_two) == seq![
            EventView::Dodged(DodgedEvent { player: dodger.value }),
        ],
        fight_outcome(attacker, dodger, at_one, at_two) == seq![
            EventView::Dodged(DodgedEvent { player: dodger.value }),
        ],
{
    assert(fight_outcome(dodger, attacker, at_one, at_two) =~= seq![
        EventView::Dodged(DodgedEvent { player: dodger.value }),
    ]);
    assert(fight_outcome(attacker, dodger, at_one, at_two) =~= seq![
        EventView::Dodged(DodgedEvent { player: dodger.value }),
    ]);
}

/// An attack on a player who neither attacks nor dodges comes to one event
/// at that player: the damage of the attacker where the shot lands, and a
/// miss where it does not.
pub proof fn lemma_attack_is_rolled(attacker: Player, defender: Player, at_one: Shot, at_two: Shot)
    requires
        attacker.state.0 == PlayerStates::Attacking,
        defender.state.0 != PlayerStates::Attacking,
        defender.state.0 != PlayerStates::Dodging,
    ensures
        fight_outcome(attacker, defender, at_one, at_two) == seq![
            if at_two.hits() {
                EventView::Damage(
                    DamageEvent { player: defender.value, value: attacker.damage.value },
                )
            } else {
                EventView::Missed(MissedEvent { player: defender.value })
            },
        ],
        fight_outcome(defender, attacker, at_one, at_two) == seq![
            if at_one.hits() {
                EventView::Damage(
                    DamageEvent { player: defender.value, value: attacker.damage.value },
                )
            } else {
                EventView::Missed(MissedEvent { player: defender.value })
            },
        ],
{
    assert(fight_outcome(attacker, defender, at_one, at_two) =~= seq![
        shot_outcome(attacker, defender, at_two),
    ]);
    assert(fight_outcome(defender, attacker, at_one, at_two) =~= seq![
        shot_outcome(attacker, defender, at_one),
    ]);
}

/// Where both players attack, each shot is resolved on its own dice: a shot
/// that lands hurts the player shot at, and a shot that does not is a miss
/// of the player who shot. The shot at player one comes first.
pub proof fn lemma_two_attacks(player_one: Player, player_two: Player, at_one: Shot, at_two: Shot)
    requires
        player_one.state.0 == PlayerStates::Attacking,
        player_two.state.0 == PlayerStates::Attacking,
    ensures
        fight_outcome(player_one, player_two, at_one, at_two) == seq![
            if at_one.hits() {
                EventView::Damage(
                    DamageEvent { player: player_one.value, value: player_two.damage.value },
                )
            } else {
                EventView::Missed(MissedEvent { player: player_two.value })
            },
            if at_two.hits() {
                EventView::Damage(
                    DamageEvent { player: player_two.value, value: player_one.damage.value },
                )
            } else {
                EventView::Missed(MissedEvent { player: player_one.value })
            },
        ],
{
    assert(fight_outcome(player_one, player_two, at_one, at_two) =~= seq![
        shot_outcome(player_two, player_one, at_one),
        shot_outcome(player_one, player_two, at_two),
    ]);
}

/// Without an attack nothing comes of the bets.
pub proof fn lemma_no_attack_no_event(
    player_one: Player,
    player_two: Player,
    at_one: Shot,
    at_two: Shot,
)
    requires
        player_one.state.0 != PlayerStates::Attacking,
        player_two.state.0 != PlayerStates::Attacking,
    ensures
        fight_outcome(player_one, player_two, at_one, at_two) == Seq::<EventView>::empty(),
{
    assert(fight_outcome(player_one, player_two, at_one, at_two) =~= Seq::<EventView>::empty());
}

/// Resolves one shot of `attacker` at `defender`.
pub fn shoot(attacker: &Player, defender: &Player, shot: Shot) -> (event: Event)
    ensures
        event@ == shot_outcome(*attacker, *defender, shot),
{
    if defender.state.0 == PlayerStates::Dodging {
        Event::Dodged(DodgedEvent { player: defender.value })
    } else if shot.hits() {
        Event::Damage(DamageEvent { player: defender.value, value: attacker.damage.value })
    } else if defender.state.0 == PlayerStates::Attacking {
        Event::Missed(MissedEvent { player: attacker.value })
    } else {
        Event::Missed(MissedEvent { player: defender.value })
    }
}

/// Resolves the bets of the two players against each other.
pub fn fight(player_one: &Player, player_two: &Player, at_one: Shot, at_two: Shot) -> (events:
    Vec<Event>)
    ensures
        events.deep_view() == fight_outcome(*player_one, *player_two, at_one, at_two),
{
    let mut events: Vec<Event> = Vec::new();
    assert(events.deep_view() =~= Seq::<EventView>::empty());
    if player_two.state.0 == PlayerStates::Attacking {
        emit(&mut events, shoot(player_two, player_one, at_one));
    }
    if player_one.state.0 == PlayerStates::Attacking {
        emit(&mut events, shoot(player_one, player_two, at_two));
    }
    assert(events.deep_view() =~= fight_outcome(*player_one, *player_two, at_one, at_two));
    events
}

/// The resource that `player` bet on without having it, if the bet came to
/// matter: an attack without a bullet always, a dodge without a dodge where
/// `opponent` attacks.
pub open spec fn depleted_outcome(player: Player, opponent: Player) -> Seq<EventView> {
    if player.state.0 == PlayerStates::NotAttacking {
        seq![
            EventView::Depleted(
                DepletedEvent { player: player.value, source: DepletedSources::Bullets },
            ),
        ]
    } else if player.state.0 == PlayerStates::NotDodging && opponent.state.0
        == PlayerStates::Attacking {
        seq![
            EventView::Depleted(
                DepletedEvent { player: player.value, source: DepletedSources::Dodges },
            ),
        ]
    } else {
        seq![]
    }
}

/// Reports the resource that `player` bet on without having it.
pub fn depleted(player: &Player, opponent: &Player) -> (events: Vec<Event>)
    ensures
        events.deep_view() == depleted_outcome(*player, *opponent),
{
    let mut events: Vec<Event> = Vec::new();
    assert(events.deep_view() =~= Seq::<EventView>::empty());
    if player.state.0 == PlayerStates::NotAttacking {
        emit(
            &mut events,
            Event::Depleted(
                DepletedEvent { player: player.value, source: DepletedSources::Bullets },
            ),
        );
    } else if player.state.0 == PlayerStates::NotDodging && opponent.state.0
        == PlayerStates::Attacking {
        emit(
            &mut events,
            Event::Depleted(
                DepletedEvent { player: player.value, source: DepletedSources::Dodges },
            ),
        );
    }
    assert(events.deep_view() =~= depleted_outcome(*player, *opponent));
    events
}

/// The damage that the hits on `player` among `events` add up to.
pub open spec fn total_damage(events: Seq<EventView>, player: u8) -> nat
    decreases events.len(),
{
    if events.len() == 0 {
        0
    } else {
        let before = total_damage(events.drop_last(), player);
        match events.last() {
            EventView::Damage(hit) => if hit.player == player {
                before + hit.value as nat
            } else {
                before
            },
            _ => before,
        }
    }
}

/// Health `health` after a loss of `damage`: what is left, and nothing where
/// the damage is the greater.
pub open spec fn health_after(health: u8, damage: nat) -> u8 {
    if damage >= health {
        0
    } else {
        (health - damage) as u8
    }
}

/// Damage never gives health and never takes more than there is, and two
/// losses in a row take what their sum takes.
pub proof fn lemma_damage_adds_up(health: u8, first: nat, second: nat)
    ensures
        0 <= health_after(health, first) <= health,
        health_after(health, 0) == health,
        health_after(health_after(health, first), second) == health_after(health, first + second),
{
}

/// One tick for each hit on `player` among `events`, in their order, with
/// the health lost.
pub open spec fn damage_ticks(events: Seq<EventView>, player: u8) -> Seq<EventView>
    decreases events.len(),
{
    if events.len() == 0 {
        seq![]
    } else {
        let before = damage_ticks(events.drop_last(), player);
        match events.last() {
            EventView::Damage(hit) => if hit.player == player {
                before.push(tick(player, damage_text(hit.value)))
            } else {
                before
            },
            _ => before,
        }
    }
}

/// Takes from `player` the health of every hit on them among `events`, and
/// answers with a tick for each.
pub fn listen_damage_event(events: &Vec<Event>, player: &mut Player) -> (ticks: Vec<Event>)
    ensures
        final(player).health.value == health_after(
            old(player).health.value,
            total_damage(events.deep_view(), old(player).value),
        ),
        *final(player) == (Player { health: final(player).health, ..*old(player) }),
        ticks.deep_view() == damage_ticks(events.deep_view(), old(player).value),
{
    let mut ticks: Vec<Event> = Vec::new();
    assert(ticks.deep_view() =~= Seq::<EventView>::empty());
    let ghost all = events.deep_view();
    let mut i: usize = 0;
    assert(all.take(0) =~= Seq::<EventView>::empty());
    while i < events.len()
        invariant
            i <= events.len(),
            all == events.deep_view(),
            all.len() == events.len(),
            *player == (Player { health: player.health, ..*old(player) }),
            player.health.value == health_after(
                old(player).health.value,
                total_damage(all.take(i as int), old(player).value),
            ),
            ticks.deep_view() == damage_ticks(all.take(i as int), old(player).value),
        decreases events.len() - i,
    {
        proof {
            assert(all.take(i + 1).drop_last() =~= all.take(i as int));
            assert(all.take(i + 1).last() == events[i as int]@);
        }
        match &events[i] {
            Event::Damage(hit) => {
                if hit.player == player.value {
                    player.health.value = player.health.value.saturating_sub(hit.value);
                    emit(&mut ticks, damage_tick(player.value, hit.value));
                }
            },
            _ => {},
        }
        i = i + 1;
    }
    assert(all.take(i as int) =~= all);
    ticks
}

/// One tick for each shot that missed `player` among `events`, in their
/// order.
pub open spec fn missed_ticks(events: Seq<EventView>, player: u8) -> Seq<EventView>
    decreases events.len(),
{
    if events.len() == 0 {
        seq![]
    } else {
        let before = missed_ticks(events.drop_last(), player);
        match events.last() {
            EventView::Missed(miss) => if miss.player == player {
                before.push(tick(player, "Missed!"@))
            } else {
                before
            },
            _ => before,
        }
    }
}

/// Answers each shot that missed `player` among `events` with a tick.
pub fn listen_missed_event(events: &Vec<Event>, player: &Player) -> (ticks: Vec<Event>)
    ensures
        ticks.deep_view() == missed_ticks(events.deep_view(), player.value),
{
    let mut ticks: Vec<Event> = Vec::new();
    assert(ticks.deep_view() =~= Seq::<EventView>::empty());
    let ghost all = events.deep_view();
    let mut i: usize = 0;
    assert(all.take(0) =~= Seq::<EventView>::empty());
    while i < events.len()
        invariant
            i <= events.len(),
            all == events.deep_view(),
            all.len() == events.len(),
            ticks.deep_view() == missed_ticks(all.take(i as int), player.value),
        decreases events.len() - i,
    {
        proof {
            assert(all.take(i + 1).drop_last() =~= all.take(i as int));
            assert(all.take(i + 1).last() == events[i as int]@);
        }
        match &events[i] {
            Event::Missed(miss) => {
                if miss.player == player.value {
                    emit(&mut ticks, tick_player(player.value, "Missed!"));
                }
            },
            _ => {},
        }
        i = i + 1;
    }
    assert(all.take(i as int) =~= all);
    ticks
}

/// One tick for each shot that `player` dodged among `events`, in their
/// order.
pub open spec fn dodged_ticks(events: Seq<EventView>, player: u8) -> Seq<EventView>
    decreases events.len(),
{
    if events.len() == 0 {
        seq![]
    } else {
        let before = dodged_ticks(events.drop_last(), player);
        match events.last() {
            EventView::Dodged(dodge) => if dodge.player == player {
                before.push(tick(player, "Dodged!"@))
            } else {
                before
            },
            _ => before,
        }
    }
}

/// Answers each shot that `player` dodged among `events` with a tick.
pub fn listen_dodged_event(events: &Vec<Event>, player: &Player) -> (ticks: Vec<Event>)
    ensures
        ticks.deep_view() == dodged_ticks(events.deep_view(), player.value),
{
    let mut ticks: Vec<Event> = Vec::new();
    assert(ticks.deep_view() =~= Seq::<EventView>::empty());
    let ghost all = events.deep_view();
    let mut i: usize = 0;
    assert(all.take(0) =~= Seq::<EventView>::empty());
    while i < events.len()
        invariant
            i <= events.len(),
            all == events.deep_view(),
            all.len() == events.len(),
            ticks.deep_view() == dodged_ticks(all.take(i as int), player.value),
        decreases events.len() - i,
    {
        proof {
            assert(all.take(i + 1).drop_last() =~= all.take(i as int));
            assert(all.take(i + 1).last() == events[i as int]@);
        }
        match &events[i] {
            Event::Dodged(dodge) => {
                if dodge.player == player.value {
                    emit(&mut ticks, tick_player(player.value, "Dodged!"));
                }
            },
            _ => {},
        }
        i = i + 1;
    }
    assert(all.take(i as int) =~= all);
    ticks
}

/// The text that tells a player which resource they lack.
pub open spec fn depleted_text(source: DepletedSources) -> Seq<char> {
    match source {
        DepletedSources::Dodges => "\nCan't dodge!"@,
        DepletedSources::Bullets => "\nOut of mana!"@,
    }
}

/// One tick for each resource that `player` lacked among `events`, in their
/// order.
pub open spec fn depleted_ticks(events: Seq<EventView>, player: u8) -> Seq<EventView>
    decreases events.len(),
{
    if events.len() == 0 {
        seq![]
    } else {
        let before = depleted_ticks(events.drop_last(), player);
        match events.last() {
            EventView::Depleted(lack) => if lack.player == player {
                before.push(tick(player, depleted_text(lack.source)))
            } else {
                before
            },
            _ => before,
        }
    }
}

/// Answers each resource that `player` lacked among `events` with a tick.
pub fn listen_depleted_event(events: &Vec<Event>, player: &Player) -> (ticks: Vec<Event>)
    ensures
        ticks.deep_view() == depleted_ticks(events.deep_view(), player.value),
{
    let mut ticks: Vec<Event> = Vec::new();
    assert(ticks.deep_view() =~= Seq::<EventView>::empty());
    let ghost all = events.deep_view();
    let mut i: usize = 0;
    assert(all.take(0) =~= Seq::<EventView>::empty());
    while i < events.len()
        invariant
            i <= events.len(),
            all == events.deep_view(),
            all.len() == events.len(),
            ticks.deep_view() == depleted_ticks(all.take(i as int), player.value),
        decreases events.len() - i,
    {
        proof {
            assert(all.take(i + 1).drop_last() =~= all.take(i as int));
            assert(all.take(i + 1).last() == events[i as int]@);
        }
        match &events[i] {
            Event::Depleted(lack) => {
                if lack.player == player.value {
                    let msg = match lack.source {
                        DepletedSources::Dodges => "\nCan't dodge!",
                        DepletedSources::Bullets => "\nOut of mana!",
                    };
                    emit(&mut ticks, tick_player(player.value, msg));
                }
            },
            _ => {},
        }
        i = i + 1;
    }
    assert(all.take(i as int) =~= all);
    ticks
}

/// A resource after one unit of it was spent: one less, and none where none
/// was left.
pub open spec fn spent(value: u8) -> u8 {
    if value == 0 {
        0
    } else {
        (value - 1) as u8
    }
}

/// A resource after `times` units of it were spent one by one.
pub open spec fn spent_times(value: u8, times: nat) -> u8
    decreases times,
{
    if times == 0 {
        value
    } else {
        spent(spent_times(value, (times - 1) as nat))
    }
}

/// Spending never goes below nothing: after any number of units spent, what
/// is left of a resource is what was there less that number, and nothing
/// where the number is the greater.
pub proof fn lemma_spent_times(value: u8, times: nat)
    ensures
        spent_times(value, times) == (if times >= value {
            0
        } else {
            value - times
        }),
    decreases times,
{
    if times > 0 {
        lemma_spent_times(value, (times - 1) as nat);
    }
}

/// Takes the dodge that a dodging player spends.
pub fn decrease_dodges(player: &mut Player)
    ensures
        old(player).state.0 == PlayerStates::Dodging ==> final(player).dodges.value == spent(
            old(player).dodges.value,
        ),
        old(player).state.0 != PlayerStates::Dodging ==> final(player).dodges == old(
            player,
        ).dodges,
        *final(player) == (Player { dodges: final(player).dodges, ..*old(player) }),
{
    if player.state.0 == PlayerStates::Dodging {
        player.dodges.value = player.dodges.value.checked_sub(1).unwrap_or(0);
    }
}

/// Takes the bullet that an attacking player spends.
pub fn decrease_bullets(player: &mut Player)
    ensures
        old(player).state.0 == PlayerStates::Attacking ==> final(player).bullets.value == spent(
            old(player).bullets.value,
        ),
        old(player).state.0 != PlayerStates::Attacking ==> final(player).bullets == old(
            player,
        ).bullets,
        *final(player) == (Player { bullets: final(player).bullets, ..*old(player) }),
{
    if player.state.0 == PlayerStates::Attacking {
        player.bullets.value = player.bullets.value.checked_sub(1).unwrap_or(0);
    }
}

/// Takes the buff of the player away.
pub fn remove_buffes(player: &mut Player)
    ensures
        *final(player) == (Player { buff: Buff { value: None }, ..*old(player) }),
{
    player.buff.value = None;
}

/// Whether the fight leaves the player as they are: a player who is
/// buffing keeps what the buff gave them.
pub open spec fn keeps_stats(player: Player) -> bool {
    player.state.0 == PlayerStates::Buffing
}

/// Sets the damage of a player who is not buffing back to the default.
pub fn damage_reset(player: &mut Player)
    ensures
        *final(player) == (if keeps_stats(*old(player)) {
            *old(player)
        } else {
            Player { damage: Damage { value: DEFAULT_DAMAGE }, ..*old(player) }
        }),
{
    if player.state.0 != PlayerStates::Buffing {
        player.damage.value = DEFAULT_DAMAGE;
    }
}

/// Sets the luck of a player who is not buffing back to the default.
pub fn luck_reset(player: &mut Player)
    ensures
        *final(player) == (if keeps_stats(*old(player)) {
            *old(player)
        } else {
            Player { luck: Luck { value: Dice { value: DEFAULT_LUCK } }, ..*old(player) }
        }),
{
    if player.state.0 != PlayerStates::Buffing {
        player.luck.value = Dice { value: DEFAULT_LUCK };
    }
}

/// Sets the marksmanship of a player who is not buffing back to the default.
pub fn marksmanship_reset(player: &mut Player)
    ensures
        *final(player) == (if keeps_stats(*old(player)) {
            *old(player)
        } else {
            Player {
                marksmanship: Marksmanship { value: Dice { value: DEFAULT_MARKSMANSHIP } },
                ..*old(player)
            }
        }),
{
    if player.state.0 != PlayerStates::Buffing {
        player.marksmanship.value = Dice { value: DEFAULT_MARKSMANSHIP };
    }
}

/// Whether every tick on the screen has faded.
pub fn check_fighting_phase_ended(faded: &Vec<bool>) -> (ended: bool)
    ensures
        ended == spec_all(faded@),
{
    all(faded)
}

/// The player after paying for their bet: an attack costs a bullet and a
/// dodge costs a dodge, as far as there is one.
pub open spec fn paid(player: Player) -> Player {
    match player.state.0 {
        PlayerStates::Attacking => Player {
            bullets: crate::game::components::Bullets { value: spent(player.bullets.value) },
            ..player
        },
        PlayerStates::Dodging => Player {
            dodges: crate::game::components::Dodges { value: spent(player.dodges.value) },
            ..player
        },
        _ => player,
    }
}

/// The player after the hits on them among `seen` took their health.
pub open spec fn hurt(player: Player, seen: Seq<EventView>) -> Player {
    Player {
        health: crate::game::components::Health {
            value: health_after(player.health.value, total_damage(seen, player.value)),
        },
        ..player
    }
}

/// The ticks that answer what happened to `player` among `seen`: the hits,
/// then the misses, then the dodges, then the resources they lacked.
pub open spec fn feedback(seen: Seq<EventView>, player: u8) -> Seq<EventView> {
    damage_ticks(seen, player) + missed_ticks(seen, player) + dodged_ticks(seen, player)
        + depleted_ticks(seen, player)
}

/// The player as the phase ends: without a buff, and with the damage and
/// the dice of the start of the match unless they are buffing.
pub open spec fn calmed(player: Player) -> Player {
    if keeps_stats(player) {
        Player { buff: Buff { value: None }, ..player }
    } else {
        Player {
            buff: Buff { value: None },
            damage: Damage { value: DEFAULT_DAMAGE },
            marksmanship: Marksmanship { value: Dice { value: DEFAULT_MARKSMANSHIP } },
            luck: Luck { value: Dice { value: DEFAULT_LUCK } },
            ..player
        }
    }
}

/// Whether the phase is over in a frame that has seen `events`: every tick
/// on the screen has faded, and the frame brought nothing to show.
pub open spec fn ended(faded: Seq<bool>, events: Seq<EventView>) -> bool {
    &&& spec_all(faded)
    &&& spec_events_empty(events, EventKind::Dodged)
    &&& spec_events_empty(events, EventKind::Depleted)
    &&& spec_events_empty(events, EventKind::Missed)
    &&& spec_events_empty(events, EventKind::Damage)
    &&& spec_events_empty(events, EventKind::TickPlayer)
}

/// The ticks that answer what happened to the two players among `seen`,
/// those of player one first.
pub open spec fn answers(game: Game, seen: Seq<EventView>) -> Seq<EventView> {
    feedback(seen, game.player_one.value) + feedback(seen, game.player_two.value)
}

/// The match after the systems of the phase ran.
///
/// As the phase begins the players pay for their bets. Each frame takes the
/// health of the hits that the frame has `seen`, and asks for the next phase
/// once the phase is over. As the phase ends the players are calmed.
pub open spec fn after(schedule: Schedule, game: Game, input: Input, seen: Seq<EventView>) -> Game {
    match schedule {
        Schedule::OnEnter => Game {
            player_one: paid(game.player_one),
            player_two: paid(game.player_two),
            ..game
        },
        Schedule::Update => Game {
            player_one: hurt(game.player_one, seen),
            player_two: hurt(game.player_two, seen),
            next_play_state: if ended(input.ticks_faded@, seen + answers(game, seen)) {
                Some(game.play_state.next())
            } else {
                game.next_play_state
            },
            ..game
        },
        Schedule::OnExit => Game {
            player_one: calmed(game.player_one),
            player_two: calmed(game.player_two),
            ..game
        },
    }
}

/// The events of the systems of the phase: what came of the bets, as the
/// phase begins, and in each frame the ticks that answer what the frame has
/// `seen`.
pub open spec fn emitted(schedule: Schedule, game: Game, chance: Chance, seen: Seq<EventView>) -> Seq<
    EventView,
> {
    match schedule {
        Schedule::OnEnter => fight_outcome(
            game.player_one,
            game.player_two,
            chance.shots.0,
            chance.shots.1,
        ) + depleted_outcome(game.player_one, game.player_two) + depleted_outcome(
            game.player_two,
            game.player_one,
        ),
        Schedule::Update => answers(game, seen),
        Schedule::OnExit => seq![],
    }
}

/// A shot that lands takes the damage of the attacker from the health of
/// the defender, as far as there is health, and is told to the defender
/// and to nobody else. The attacker is not hurt.
pub proof fn lemma_hit_takes_health(attacker: Player, defender: Player, at_one: Shot, at_two: Shot)
    requires
        attacker.state.0 == PlayerStates::Attacking,
        defender.state.0 != PlayerStates::Attacking,
        defender.state.0 != PlayerStates::Dodging,
        attacker.value != defender.value,
        at_two.hits(),
    ensures
        hurt(defender, fight_outcome(attacker, defender, at_one, at_two)).health.value
            == health_after(defender.health.value, attacker.damage.value as nat),
        hurt(attacker, fight_outcome(attacker, defender, at_one, at_two)) == attacker,
        feedback(fight_outcome(attacker, defender, at_one, at_two), defender.value) == seq![
            tick(defender.value, damage_text(attacker.damage.value)),
        ],
        feedback(fight_outcome(attacker, defender, at_one, at_two), attacker.value) == Seq::<
            EventView,
        >::empty(),
{
    lemma_attack_is_rolled(attacker, defender, at_one, at_two);
    let outcome = fight_outcome(attacker, defender, at_one, at_two);
    assert(outcome.drop_last() =~= Seq::<EventView>::empty());
    reveal_with_fuel(total_damage, 2);
    reveal_with_fuel(damage_ticks, 2);
    reveal_with_fuel(missed_ticks, 2);
    reveal_with_fuel(dodged_ticks, 2);
    reveal_with_fuel(depleted_ticks, 2);
    assert(feedback(outcome, defender.value) =~= seq![
        tick(defender.value, damage_text(attacker.damage.value)),
    ]);
    assert(feedback(outcome, attacker.value) =~= Seq::<EventView>::empty());
}

fn listen(events: &Vec<Event>, player: &mut Player) -> (ticks: Vec<Event>)
    ensures
        *final(player) == hurt(*old(player), events.deep_view()),
        ticks.deep_view() == feedback(events.deep_view(), old(player).value),
{
    let mut ticks = listen_damage_event(events, player);
    emit_all(&mut ticks, listen_missed_event(events, player));
    emit_all(&mut ticks, listen_dodged_event(events, player));
    emit_all(&mut ticks, listen_depleted_event(events, player));
    ticks
}

fn calm(player: &mut Player)
    ensures
        *final(player) == calmed(*old(player)),
{
    remove_buffes(player);
    damage_reset(player);
    marksmanship_reset(player);
    luck_reset(player);
}

/// Runs the systems of the fighting phase that are due on `schedule`.
pub fn plugin(
    schedule: Schedule,
    game: &mut Game,
    input: &Input,
    chance: &Chance,
    events: &mut Vec<Event>,
)
    ensures
        *final(game) == after(schedule, *old(game), *input, old(events).deep_view()),
        final(events).deep_view() == old(events).deep_view() + emitted(
            schedule,
            *old(game),
            *chance,
            old(events).deep_view(),
        ),
{
    let ghost seen = events.deep_view();
    match schedule {
        Schedule::OnEnter => {
            let outcome = fight(&game.player_one, &game.player_two, chance.shots.0, chance.shots.1);
            let first = depleted(&game.player_one, &game.player_two);
            let second = depleted(&game.player_two, &game.player_one);
            emit_all(events, outcome);
            emit_all(events, first);
            emit_all(events, second);
            decrease_bullets(&mut game.player_one);
            decrease_bullets(&mut game.player_two);
            decrease_dodges(&mut game.player_one);
            decrease_dodges(&mut game.player_two);
            assert(events.deep_view() =~= seen + emitted(schedule, *old(game), *chance, seen));
        },
        Schedule::Update => {
            let first = listen(events, &mut game.player_one);
            let second = listen(events, &mut game.player_two);
            emit_all(events, first);
            emit_all(events, second);
            assert(events.deep_view() =~= seen + emitted(schedule, *old(game), *chance, seen));
            if check_fighting_phase_ended(&input.ticks_faded) && events_empty(
                events,
                EventKind::Dodged,
            ) && events_empty(events, EventKind::Depleted) && events_empty(
                events,
                EventKind::Missed,
            ) && events_empty(events, EventKind::Damage) && events_empty(
                events,
                EventKind::TickPlayer,
            ) {
                next_play_state(&game.play_state, &mut game.next_play_state);
            }
        },
        Schedule::OnExit => {
            calm(&mut game.player_one);
            calm(&mut game.player_two);
            assert(events.deep_view() =~= seen + Seq::<EventView>::empty());
        },
    }
}

} // verus!
