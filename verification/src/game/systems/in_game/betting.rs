//! The betting phase: each player picks an action, and a player who buffs
//! draws a buff as the phase ends.

use crate::game::chance::Chance;
use crate::game::components::{
    Buff, Buffes, Bullets, Damage, Dice, Health, Luck, Marksmanship, Player, PlayerState,
    PlayerStates,
};
use crate::game::events::{emit, emit_all, tick, tick_player, Event, EventView, PlayerStateChangeEvent};
use crate::game::input::{Input, KeyCode};
use crate::game::resources::BettingTimer;
use crate::game::settings::{BUFF_DICE_FACES, DEFAULT_HEALTH, GOLDEN_BULLET_DAMAGE};
use crate::game::states::PlayStates;
use crate::game::systems::Schedule;
use crate::game::Game;
use vstd::prelude::*;

verus! {

/// Advances the timer of the phase by a frame and, in the frame in which it
/// runs out, asks for the phase that follows `play_state`.
pub fn betting_countdown(
    play_state: &PlayStates,
    next_play_state: &mut Option<PlayStates>,
    delta: u64,
    betting_timer: &mut BettingTimer,
)
    ensures
        final(betting_timer).0 == old(betting_timer).0.spec_tick(delta),
        *final(next_play_state) == (if final(betting_timer).0.done_this_tick {
            Some(play_state.next())
        } else {
            *old(next_play_state)
        }),
{
    betting_timer.0.tick(delta);
    if betting_timer.0.just_finished() {
        *next_play_state = Some(play_state.next());
    }
}

/// Sets the timer of the phase back to its start.
pub fn reset_betting_timer(betting_timer: &mut BettingTimer)
    ensures
        final(betting_timer).0 == old(betting_timer).0.spec_reset(),
{
    betting_timer.0.reset()
}

/// The intent that a request comes down to: an attack needs a bullet and a
/// dodge needs a dodge, and without one each is the denied form of itself. A
/// buff needs nothing.
pub open spec fn granted(player: Player, requested: PlayerStates) -> PlayerStates {
    match requested {
        PlayerStates::Attacking => if player.bullets.value > 0 {
            PlayerStates::Attacking
        } else {
            PlayerStates::NotAttacking
        },
        PlayerStates::Dodging => if player.dodges.value > 0 {
            PlayerStates::Dodging
        } else {
            PlayerStates::NotDodging
        },
        other => other,
    }
}

/// The player after `key` was pressed: with the intent that the key asks
/// for, as far as it is granted, where the key is one of theirs, and
/// unchanged where it is not.
pub open spec fn bet(player: Player, key: KeyCode) -> Player {
    match player.keys.derive_player_state(&key) {
        Some(requested) => Player { state: PlayerState(granted(player, requested)), ..player },
        None => player,
    }
}

/// The player after each of `keys` was pressed, in their order.
pub open spec fn bets(player: Player, keys: Seq<KeyCode>) -> Player
    decreases keys.len(),
{
    if keys.len() == 0 {
        player
    } else {
        bet(bets(player, keys.drop_last()), keys.last())
    }
}

/// A bet changes nothing of a player but their intent.
pub proof fn lemma_bets_keep_stats(player: Player, keys: Seq<KeyCode>)
    ensures
        bets(player, keys) == (Player { state: bets(player, keys).state, ..player }),
    decreases keys.len(),
{
    if keys.len() > 0 {
        lemma_bets_keep_stats(player, keys.drop_last());
    }
}

/// The events of `keys` key presses: each press is reported once for each
/// player, player `one` first.
pub open spec fn bet_events(keys: nat, one: u8, two: u8) -> Seq<EventView>
    decreases keys,
{
    if keys == 0 {
        seq![]
    } else {
        bet_events((keys - 1) as nat, one, two).push(
            EventView::PlayerStateChange(PlayerStateChangeEvent { player: one }),
        ).push(EventView::PlayerStateChange(PlayerStateChangeEvent { player: two }))
    }
}

fn place_bet(player: &mut Player, key: &KeyCode) -> (event: Event)
    ensures
        *final(player) == bet(*old(player), *key),
        event@ == EventView::PlayerStateChange(
            PlayerStateChangeEvent { player: old(player).value },
        ),
{
    match player.keys.derive_player_state(key) {
        Some(PlayerStates::Attacking) => {
            if player.bullets.value > 0 {
                player.state.0 = PlayerStates::Attacking;
            } else {
                player.state.0 = PlayerStates::NotAttacking;
            }
        },
        Some(PlayerStates::Dodging) => {
            if player.dodges.value > 0 {
                player.state.0 = PlayerStates::Dodging;
            } else {
                player.state.0 = PlayerStates::NotDodging;
            }
        },
        Some(other_player_state) => {
            player.state.0 = other_player_state;
        },
        None => {},
    }
    Event::PlayerStateChange(PlayerStateChangeEvent { player: player.value })
}

/// Takes the keys pressed in a frame as bets of the two players.
pub fn set_player_state(keys: &Vec<KeyCode>, player_one: &mut Player, player_two: &mut Player) -> (events:
    Vec<Event>)
    ensures
        *final(player_one) == bets(*old(player_one), keys@),
        *final(player_two) == bets(*old(player_two), keys@),
        events.deep_view() == bet_events(
            keys@.len(),
            old(player_one).value,
            old(player_two).value,
        ),
{
    let mut events: Vec<Event> = Vec::new();
    assert(events.deep_view() =~= Seq::<EventView>::empty());
    let mut i: usize = 0;
    assert(keys@.take(0) =~= Seq::<KeyCode>::empty());
    while i < keys.len()
        invariant
            i <= keys.len(),
            *player_one == bets(*old(player_one), keys@.take(i as int)),
            *player_two == bets(*old(player_two), keys@.take(i as int)),
            player_one.value == old(player_one).value,
            player_two.value == old(player_two).value,
            events.deep_view() == bet_events(i as nat, old(player_one).value, old(player_two).value),
        decreases keys.len() - i,
    {
        proof {
            assert(keys@.take(i + 1).drop_last() =~= keys@.take(i as int));
            assert(keys@.take(i + 1).last() == keys@[i as int]);
        }
        let first = place_bet(player_one, &keys[i]);
        emit(&mut events, first);
        let second = place_bet(player_two, &keys[i]);
        emit(&mut events, second);
        i = i + 1;
    }
    assert(keys@.take(i as int) =~= keys@);
    events
}

/// Hands `buff` to a player who is buffing.
pub fn add_buffes(player: &mut Player, buff: Buffes)
    ensures
        *final(player) == (if old(player).state.0 == PlayerStates::Buffing {
            Player { buff: Buff { value: Some(buff) }, ..*old(player) }
        } else {
            *old(player)
        }),
{
    if player.state.0 == PlayerStates::Buffing {
        player.buff.value = Some(buff);
    }
}

/// Whether the numbers of the player leave room for what `buff` adds.
pub open spec fn has_room_for(player: Player, buff: Buffes) -> bool {
    match buff {
        Buffes::GoldenBulletBuff => player.bullets.value < u8::MAX,
        Buffes::IncreaseDamageBuff => player.damage.value < u8::MAX && player.bullets.value
            < u8::MAX,
        Buffes::HealBuff => true,
        Buffes::SuperHealBuff => true,
        Buffes::LuckBuff => player.luck.value.value + BUFF_DICE_FACES <= u8::MAX,
        Buffes::MarksmanshipBuff => player.marksmanship.value.value + BUFF_DICE_FACES <= u8::MAX,
    }
}

/// Works out whether the numbers of the player leave room for what `buff`
/// adds.
pub fn room_for(player: &Player, buff: Buffes) -> (room: bool)
    ensures
        room == has_room_for(*player, buff),
{
    match buff {
        Buffes::GoldenBulletBuff => player.bullets.value < u8::MAX,
        Buffes::IncreaseDamageBuff => player.damage.value < u8::MAX && player.bullets.value
            < u8::MAX,
        Buffes::HealBuff => true,
        Buffes::SuperHealBuff => true,
        Buffes::LuckBuff => player.luck.value.value <= u8::MAX - BUFF_DICE_FACES,
        Buffes::MarksmanshipBuff => player.marksmanship.value.value <= u8::MAX
            - BUFF_DICE_FACES,
    }
}

/// Health after a heal of `amount`: `amount` more where that stays within
/// the health a player starts with, and the health a player starts with
/// otherwise.
pub open spec fn healed(health: u8, amount: u8) -> u8 {
    if health + amount <= DEFAULT_HEALTH {
        (health + amount) as u8
    } else {
        DEFAULT_HEALTH
    }
}

/// The player after `buff` took effect.
pub open spec fn buffed(player: Player, buff: Buffes) -> Player {
    match buff {
        Buffes::GoldenBulletBuff => Player {
            damage: Damage { value: GOLDEN_BULLET_DAMAGE },
            bullets: Bullets { value: (player.bullets.value + 1) as u8 },
            state: PlayerState(PlayerStates::Attacking),
            ..player
        },
        Buffes::IncreaseDamageBuff => Player {
            damage: Damage { value: (player.damage.value + 1) as u8 },
            bullets: Bullets { value: (player.bullets.value + 1) as u8 },
            state: PlayerState(PlayerStates::Attacking),
            ..player
        },
        Buffes::HealBuff => Player {
            health: Health { value: healed(player.health.value, 1) },
            ..player
        },
        Buffes::SuperHealBuff => Player {
            health: Health { value: healed(player.health.value, 2) },
            ..player
        },
        Buffes::LuckBuff => Player {
            luck: Luck {
                value: Dice { value: (player.luck.value.value + BUFF_DICE_FACES) as u8 },
            },
            ..player
        },
        Buffes::MarksmanshipBuff => Player {
            marksmanship: Marksmanship {
                value: Dice { value: (player.marksmanship.value.value + BUFF_DICE_FACES) as u8 },
            },
            ..player
        },
    }
}

/// The text that tells `player` of the effect of `buff`.
pub open spec fn buff_text(player: Player, buff: Buffes) -> Seq<char> {
    match buff {
        Buffes::GoldenBulletBuff => "Golden bullet"@,
        Buffes::IncreaseDamageBuff => "Double shot"@,
        Buffes::HealBuff => if player.health.value < DEFAULT_HEALTH {
            "Healing"@
        } else {
            "Maxed HP"@
        },
        Buffes::SuperHealBuff => if player.health.value < DEFAULT_HEALTH - 1 {
            "Super healing"@
        } else {
            "Maxed HP"@
        },
        Buffes::LuckBuff => "Lucky charm"@,
        Buffes::MarksmanshipBuff => "Sharpshooter"@,
    }
}

/// The player after the system of `buff` ran: with the effect of the buff
/// where `buff` is the buff they hold, and unchanged otherwise.
pub open spec fn after_buff(player: Player, buff: Buffes) -> Player {
    if player.buff.value == Some(buff) {
        buffed(player, buff)
    } else {
        player
    }
}

/// The ticks of the system of `buff`: one where `buff` is the buff the
/// player holds.
pub open spec fn buff_ticks(player: Player, buff: Buffes) -> Seq<EventView> {
    if player.buff.value == Some(buff) {
        seq![tick(player.value, buff_text(player, buff))]
    } else {
        seq![]
    }
}

/// Whether the system of `buff` can run on the player.
pub open spec fn can_buff(player: Player, buff: Buffes) -> bool {
    player.buff.value == Some(buff) ==> has_room_for(player, buff)
}

/// The effect of `IncreaseDamageBuff`: one more damage, one more bullet, and
/// an attack.
pub fn increase_damage_buff(player: &mut Player) -> (ticks: Vec<Event>)
    requires
        can_buff(*old(player), Buffes::IncreaseDamageBuff),
    ensures
        *final(player) == after_buff(*old(player), Buffes::IncreaseDamageBuff),
        ticks.deep_view() == buff_ticks(*old(player), Buffes::IncreaseDamageBuff),
{
    let mut ticks: Vec<Event> = Vec::new();
    assert(ticks.deep_view() =~= Seq::<EventView>::empty());
    if let Some(buff_value) = player.buff.value {
        if buff_value == Buffes::IncreaseDamageBuff {
            player.damage.value = player.damage.value + 1;
            player.bullets.value = player.bullets.value + 1;
            player.state.0 = PlayerStates::Attacking;
            emit(&mut ticks, tick_player(player.value, "Double shot"));
        }
    }
    assert(ticks.deep_view() =~= buff_ticks(*old(player), Buffes::IncreaseDamageBuff));
    ticks
}

/// The effect of `GoldenBulletBuff`: the damage of a golden bullet, one more
/// bullet, and an attack.
pub fn golden_bullet_buff(player: &mut Player) -> (ticks: Vec<Event>)
    requires
        can_buff(*old(player), Buffes::GoldenBulletBuff),
    ensures
        *final(player) == after_buff(*old(player), Buffes::GoldenBulletBuff),
        ticks.deep_view() == buff_ticks(*old(player), Buffes::GoldenBulletBuff),
{
    let mut ticks: Vec<Event> = Vec::new();
    assert(ticks.deep_view() =~= Seq::<EventView>::empty());
    if let Some(buff_value) = player.buff.value {
        if buff_value == Buffes::GoldenBulletBuff {
            player.damage.value = GOLDEN_BULLET_DAMAGE;
            player.bullets.value = player.bullets.value + 1;
            player.state.0 = PlayerStates::Attacking;
            emit(&mut ticks, tick_player(player.value, "Golden bullet"));
        }
    }
    assert(ticks.deep_view() =~= buff_ticks(*old(player), Buffes::GoldenBulletBuff));
    ticks
}

/// The effect of `HealBuff`: one more health, up to the health a player
/// starts with.
pub fn heal_buff(player: &mut Player) -> (ticks: Vec<Event>)
    ensures
        *final(player) == after_buff(*old(player), Buffes::HealBuff),
        ticks.deep_view() == buff_ticks(*old(player), Buffes::HealBuff),
{
    let mut ticks: Vec<Event> = Vec::new();
    assert(ticks.deep_view() =~= Seq::<EventView>::empty());
    if let Some(buff_value) = player.buff.value {
        if buff_value == Buffes::HealBuff {
            if player.health.value < DEFAULT_HEALTH {
                player.health.value = player.health.value + 1;
                emit(&mut ticks, tick_player(player.value, "Healing"));
            } else {
                player.health.value = DEFAULT_HEALTH;
                emit(&mut ticks, tick_player(player.value, "Maxed HP"));
            }
        }
    }
    assert(ticks.deep_view() =~= buff_ticks(*old(player), Buffes::HealBuff));
    ticks
}

/// The effect of `SuperHealBuff`: two more health, up to the health a player
/// starts with.
pub fn super_heal_buff(player: &mut Player) -> (ticks: Vec<Event>)
    ensures
        *final(player) == after_buff(*old(player), Buffes::SuperHealBuff),
        ticks.deep_view() == buff_ticks(*old(player), Buffes::SuperHealBuff),
{
    let mut ticks: Vec<Event> = Vec::new();
    assert(ticks.deep_view() =~= Seq::<EventView>::empty());
    if let Some(buff_value) = player.buff.value {
        if buff_value == Buffes::SuperHealBuff {
            if player.health.value < DEFAULT_HEALTH - 1 {
                player.health.value = player.health.value + 2;
                emit(&mut ticks, tick_player(player.value, "Super healing"));
            } else {
                player.health.value = DEFAULT_HEALTH;
                emit(&mut ticks, tick_player(player.value, "Maxed HP"));
            }
        }
    }
    assert(ticks.deep_view() =~= buff_ticks(*old(player), Buffes::SuperHealBuff));
    ticks
}

/// The effect of `LuckBuff`: more faces on the luck dice.
pub fn luck_buff(player: &mut Player) -> (ticks: Vec<Event>)
    requires
        can_buff(*old(player), Buffes::LuckBuff),
    ensures
        *final(player) == after_buff(*old(player), Buffes::LuckBuff),
        ticks.deep_view() == buff_ticks(*old(player), Buffes::LuckBuff),
{
    let mut ticks: Vec<Event> = Vec::new();
    assert(ticks.deep_view() =~= Seq::<EventView>::empty());
    if let Some(buff_value) = player.buff.value {
        if buff_value == Buffes::LuckBuff {
            player.luck.value.add_assign(Dice { value: BUFF_DICE_FACES });
            emit(&mut ticks, tick_player(player.value, "Lucky charm"));
        }
    }
    assert(ticks.deep_view() =~= buff_ticks(*old(player), Buffes::LuckBuff));
    ticks
}

/// The effect of `MarksmanshipBuff`: more faces on the marksmanship dice.
pub fn marksmanship_buff(player: &mut Player) -> (ticks: Vec<Event>)
    requires
        can_buff(*old(player), Buffes::MarksmanshipBuff),
    ensures
        *final(player) == after_buff(*old(player), Buffes::MarksmanshipBuff),
        ticks.deep_view() == buff_ticks(*old(player), Buffes::MarksmanshipBuff),
{
    let mut ticks: Vec<Event> = Vec::new();
    assert(ticks.deep_view() =~= Seq::<EventView>::empty());
    if let Some(buff_value) = player.buff.value {
        if buff_value == Buffes::MarksmanshipBuff {
            player.marksmanship.value.add_assign(Dice { value: BUFF_DICE_FACES });
            emit(&mut ticks, tick_player(player.value, "Sharpshooter"));
        }
    }
    assert(ticks.deep_view() =~= buff_ticks(*old(player), Buffes::MarksmanshipBuff));
    ticks
}

/// A heal never takes health away from a player who has no more than they
/// started with, and never leaves a player with more than that.
pub proof fn lemma_heal_is_capped(player: Player)
    ensures
        buffed(player, Buffes::HealBuff).health.value <= DEFAULT_HEALTH,
        buffed(player, Buffes::SuperHealBuff).health.value <= DEFAULT_HEALTH,
        player.health.value <= DEFAULT_HEALTH ==> ({
            &&& buffed(player, Buffes::HealBuff).health.value >= player.health.value
            &&& buffed(player, Buffes::SuperHealBuff).health.value >= player.health.value
        }),
{
}

/// The player as the phase ends: a player who is buffing holds `buff` and
/// has its effect, any other player is as they were.
pub open spec fn drawn(player: Player, buff: Buffes) -> Player {
    if player.state.0 == PlayerStates::Buffing {
        buffed(Player { buff: Buff { value: Some(buff) }, ..player }, buff)
    } else {
        player
    }
}

/// The ticks of the end of the phase for one player: the effect of `buff`
/// for a player who is buffing, nothing for any other.
pub open spec fn drawn_ticks(player: Player, buff: Buffes) -> Seq<EventView> {
    if player.state.0 == PlayerStates::Buffing {
        seq![tick(player.value, buff_text(player, buff))]
    } else {
        seq![]
    }
}

/// Whether the player can end the phase with `buff` to draw.
pub open spec fn can_draw(player: Player, buff: Buffes) -> bool {
    player.state.0 == PlayerStates::Buffing ==> has_room_for(player, buff)
}

/// A player who is not buffing draws no buff: the end of the phase leaves
/// them as they are and tells them nothing, whatever buff there is to draw.
pub proof fn lemma_only_buffing_players_draw(player: Player, buff: Buffes)
    requires
        player.state.0 != PlayerStates::Buffing,
    ensures
        drawn(player, buff) == player,
        drawn_ticks(player, buff) == Seq::<EventView>::empty(),
        can_draw(player, buff),
{
}

/// A player who is buffing draws one buff: they hold it as the phase ends,
/// and they are told of it once.
pub proof fn lemma_buffing_players_draw_once(player: Player, buff: Buffes)
    requires
        player.state.0 == PlayerStates::Buffing,
    ensures
        drawn(player, buff).buff.value == Some(buff),
        drawn_ticks(player, buff).len() == 1,
{
}

/// Ends the phase for one player: a player who is buffing draws `buff`, and
/// the buff takes effect.
pub fn draw_buff(player: &mut Player, buff: Buffes) -> (ticks: Vec<Event>)
    requires
        can_draw(*old(player), buff),
    ensures
        *final(player) == drawn(*old(player), buff),
        ticks.deep_view() == drawn_ticks(*old(player), buff),
{
    let mut ticks: Vec<Event> = Vec::new();
    assert(ticks.deep_view() =~= Seq::<EventView>::empty());
    if player.state.0 == PlayerStates::Buffing {
        add_buffes(player, buff);
        let ghost holding = *player;
        emit_all(&mut ticks, increase_damage_buff(player));
        emit_all(&mut ticks, golden_bullet_buff(player));
        emit_all(&mut ticks, heal_buff(player));
        emit_all(&mut ticks, super_heal_buff(player));
        emit_all(&mut ticks, luck_buff(player));
        emit_all(&mut ticks, marksmanship_buff(player));
        assert(*player == buffed(holding, buff));
    }
    assert(ticks.deep_view() =~= drawn_ticks(*old(player), buff));
    ticks
}

/// Whether the systems of the phase that are due on `schedule` can run: as
/// the phase ends, the numbers of a player who is buffing leave room for the
/// buff they draw.
pub open spec fn ready(schedule: Schedule, game: Game, chance: Chance) -> bool {
    schedule == Schedule::OnExit ==> {
        &&& can_draw(game.player_one, chance.buffs.0)
        &&& can_draw(game.player_two, chance.buffs.1)
    }
}

/// Works out whether the systems of the phase that are due on `schedule`
/// can run.
pub fn is_ready(schedule: Schedule, game: &Game, chance: &Chance) -> (is_ready: bool)
    ensures
        is_ready == ready(schedule, *game, *chance),
{
    match schedule {
        Schedule::OnExit => {
            (game.player_one.state.0 != PlayerStates::Buffing || room_for(
                &game.player_one,
                chance.buffs.0,
            )) && (game.player_two.state.0 != PlayerStates::Buffing || room_for(
                &game.player_two,
                chance.buffs.1,
            ))
        },
        _ => true,
    }
}

/// The match after the systems of the phase ran.
///
/// The timer starts anew as the phase begins. Each frame takes the keys as
/// bets and moves the timer on, until it asks for the next phase. As the
/// phase ends, the players who are buffing draw their buffs.
pub open spec fn after(schedule: Schedule, game: Game, input: Input, chance: Chance) -> Game {
    match schedule {
        Schedule::OnEnter => Game {
            betting_timer: BettingTimer(game.betting_timer.0.spec_reset()),
            ..game
        },
        Schedule::Update => {
            let ticked = game.betting_timer.0.spec_tick(input.delta);
            Game {
                player_one: bets(game.player_one, input.keys@),
                player_two: bets(game.player_two, input.keys@),
                betting_timer: BettingTimer(ticked),
                next_play_state: if ticked.done_this_tick {
                    Some(game.play_state.next())
                } else {
                    game.next_play_state
                },
                ..game
            }
        },
        Schedule::OnExit => Game {
            player_one: drawn(game.player_one, chance.buffs.0),
            player_two: drawn(game.player_two, chance.buffs.1),
            ..game
        },
    }
}

/// The events of the systems of the phase: the bets of each frame, and the
/// buffs drawn as the phase ends.
pub open spec fn emitted(schedule: Schedule, game: Game, input: Input, chance: Chance) -> Seq<
    EventView,
> {
    match schedule {
        Schedule::OnEnter => seq![],
        Schedule::Update => bet_events(
            input.keys@.len(),
            game.player_one.value,
            game.player_two.value,
        ),
        Schedule::OnExit => drawn_ticks(game.player_one, chance.buffs.0) + drawn_ticks(
            game.player_two,
            chance.buffs.1,
        ),
    }
}

/// Runs the systems of the betting phase that are due on `schedule`.
pub fn plugin(
    schedule: Schedule,
    game: &mut Game,
    input: &Input,
    chance: &Chance,
    events: &mut Vec<Event>,
)
    requires
        ready(schedule, *old(game), *chance),
    ensures
        *final(game) == after(schedule, *old(game), *input, *chance),
        final(events).deep_view() == old(events).deep_view() + emitted(
            schedule,
            *old(game),
            *input,
            *chance,
        ),
{
    match schedule {
        Schedule::OnEnter => {
            reset_betting_timer(&mut game.betting_timer);
            assert(events.deep_view() =~= old(events).deep_view() + Seq::<EventView>::empty());
        },
        Schedule::Update => {
            let bets = set_player_state(&input.keys, &mut game.player_one, &mut game.player_two);
            emit_all(events, bets);
            betting_countdown(
                &game.play_state,
                &mut game.next_play_state,
                input.delta,
                &mut game.betting_timer,
            );
        },
        Schedule::OnExit => {
            let first = draw_buff(&mut game.player_one, chance.buffs.0);
            let second = draw_buff(&mut game.player_two, chance.buffs.1);
            let ghost before = events.deep_view();
            emit_all(events, first);
            emit_all(events, second);
            assert(events.deep_view() =~= before + emitted(schedule, *old(game), *input, *chance));
        },
    }
}

} // verus!
