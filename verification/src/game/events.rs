//! The facts a frame reports.
//!
//! Every system answers with a list of events in place of acting on the
//! outside itself. Events that carry a text are compared in contracts by
//! their view, in which the text is a sequence of characters.

use super::components::Player;
use super::states::PlayStates;
use super::Game;
use vstd::prelude::*;
use vstd::string::StringExecFns;

verus! {

/// How a match ended.
#[derive(Debug, Clone, Copy, PartialEq, Eq, Structural)]
pub enum GameOvers {
    Tie,
    Winner,
}

/// The match is over; `player` is the winner, or nothing on a tie.
#[derive(Debug, Clone, Copy, PartialEq, Eq, Structural)]
pub struct GameOverEvent {
    pub player: Option<u8>,
    pub state: GameOvers,
}

impl GameOverEvent {
    /// The event of a match won by `player`.
    pub open spec fn won_by(player: u8) -> GameOverEvent {
        GameOverEvent { player: Some(player), state: GameOvers::Winner }
    }

    /// The event of a match without a winner.
    pub open spec fn tie() -> GameOverEvent {
        GameOverEvent { player: None, state: GameOvers::Tie }
    }
}

/// A key was taken as a bet of `player`.
#[derive(Debug, Clone, Copy, PartialEq, Eq, Structural)]
pub struct PlayerStateChangeEvent {
    pub player: u8,
}

/// The resource a player asked to spend and had none of.
#[derive(Debug, Clone, Copy, PartialEq, Eq, Structural)]
pub enum DepletedSources {
    Bullets,
    Dodges,
}

/// `player` bet on an action without the resource for it.
#[derive(Debug, Clone, Copy, PartialEq, Eq, Structural)]
pub struct DepletedEvent {
    pub player: u8,
    pub source: DepletedSources,
}

/// `player` was hit for `value` health.
#[derive(Debug, Clone, Copy, PartialEq, Eq, Structural)]
pub struct DamageEvent {
    pub player: u8,
    pub value: u8,
}

/// A shot at `player` missed.
#[derive(Debug, Clone, Copy, PartialEq, Eq, Structural)]
pub struct MissedEvent {
    pub player: u8,
}

/// `player` dodged a shot.
#[derive(Debug, Clone, Copy, PartialEq, Eq, Structural)]
pub struct DodgedEvent {
    pub player: u8,
}

/// The match is in `phase` from this frame on.
#[derive(Debug, Clone, Copy, PartialEq, Eq, Structural)]
pub struct PhaseChangeEvent {
    pub phase: PlayStates,
}

/// The round being played is round `round` from this frame on.
#[derive(Debug, Clone, Copy, PartialEq, Eq, Structural)]
pub struct RoundChangeEvent {
    pub round: u8,
}

/// The numbers of a player that the screen shows.
#[derive(Debug, Clone, Copy, PartialEq, Eq, Structural)]
pub enum Stats {
    Health,
    Bullets,
    Dodges,
}

/// `player` has `value` of `stat` from this frame on.
#[derive(Debug, Clone, Copy, PartialEq, Eq, Structural)]
pub struct StatChangeEvent {
    pub player: u8,
    pub stat: Stats,
    pub value: u8,
}

/// A short text to flash at `player`.
#[derive(Debug, Clone, PartialEq, Eq)]
pub struct TickPlayerEvent {
    pub player: u8,
    pub value: String,
}

/// A text for both players.
#[derive(Debug, Clone, PartialEq, Eq)]
pub struct AlertEvent {
    pub value: String,
}

/// Any of the events.
#[derive(Debug, Clone, PartialEq, Eq)]
pub enum Event {
    GameOver(GameOverEvent),
    PlayerStateChange(PlayerStateChangeEvent),
    Depleted(DepletedEvent),
    Damage(DamageEvent),
    Missed(MissedEvent),
    Dodged(DodgedEvent),
    TickPlayer(TickPlayerEvent),
    Alert(AlertEvent),
    PhaseChange(PhaseChangeEvent),
    RoundChange(RoundChangeEvent),
    StatChange(StatChangeEvent),
}

/// An event as contracts see it: the texts are sequences of characters.
pub enum EventView {
    GameOver(GameOverEvent),
    PlayerStateChange(PlayerStateChangeEvent),
    Depleted(DepletedEvent),
    Damage(DamageEvent),
    Missed(MissedEvent),
    Dodged(DodgedEvent),
    TickPlayer { player: u8, value: Seq<char> },
    Alert { value: Seq<char> },
    PhaseChange(PhaseChangeEvent),
    RoundChange(RoundChangeEvent),
    StatChange(StatChangeEvent),
}

/// The kinds of events.
#[derive(Debug, Clone, Copy, PartialEq, Eq, Structural)]
pub enum EventKind {
    GameOver,
    PlayerStateChange,
    Depleted,
    Damage,
    Missed,
    Dodged,
    TickPlayer,
    Alert,
    PhaseChange,
    RoundChange,
    StatChange,
}

impl EventView {
    /// The kind of the event.
    pub open spec fn kind(self) -> EventKind {
        match self {
            EventView::GameOver(_) => EventKind::GameOver,
            EventView::PlayerStateChange(_) => EventKind::PlayerStateChange,
            EventView::Depleted(_) => EventKind::Depleted,
            EventView::Damage(_) => EventKind::Damage,
            EventView::Missed(_) => EventKind::Missed,
            EventView::Dodged(_) => EventKind::Dodged,
            EventView::TickPlayer { .. } => EventKind::TickPlayer,
            EventView::Alert { .. } => EventKind::Alert,
            EventView::PhaseChange(_) => EventKind::PhaseChange,
            EventView::RoundChange(_) => EventKind::RoundChange,
            EventView::StatChange(_) => EventKind::StatChange,
        }
    }
}

impl Event {
    /// The kind of the event.
    pub fn kind(&self) -> (kind: EventKind)
        ensures
            kind == self@.kind(),
    {
        match self {
            Event::GameOver(_) => EventKind::GameOver,
            Event::PlayerStateChange(_) => EventKind::PlayerStateChange,
            Event::Depleted(_) => EventKind::Depleted,
            Event::Damage(_) => EventKind::Damage,
            Event::Missed(_) => EventKind::Missed,
            Event::Dodged(_) => EventKind::Dodged,
            Event::TickPlayer(_) => EventKind::TickPlayer,
            Event::Alert(_) => EventKind::Alert,
            Event::PhaseChange(_) => EventKind::PhaseChange,
            Event::RoundChange(_) => EventKind::RoundChange,
            Event::StatChange(_) => EventKind::StatChange,
        }
    }
}

impl View for Event {
    type V = EventView;

    open spec fn view(&self) -> EventView {
        match *self {
            Event::GameOver(e) => EventView::GameOver(e),
            Event::PlayerStateChange(e) => EventView::PlayerStateChange(e),
            Event::Depleted(e) => EventView::Depleted(e),
            Event::Damage(e) => EventView::Damage(e),
            Event::Missed(e) => EventView::Missed(e),
            Event::Dodged(e) => EventView::Dodged(e),
            Event::TickPlayer(e) => EventView::TickPlayer { player: e.player, value: e.value@ },
            Event::Alert(e) => EventView::Alert { value: e.value@ },
            Event::PhaseChange(e) => EventView::PhaseChange(e),
            Event::RoundChange(e) => EventView::RoundChange(e),
            Event::StatChange(e) => EventView::StatChange(e),
        }
    }
}

impl DeepView for Event {
    type V = EventView;

    open spec fn deep_view(&self) -> EventView {
        self.view()
    }
}

/// The view of a tick of `text` at `player`.
pub open spec fn tick(player: u8, text: Seq<char>) -> EventView {
    EventView::TickPlayer { player, value: text }
}

/// Adds `event` at the end of `events`.
pub fn emit(events: &mut Vec<Event>, event: Event)
    ensures
        final(events).deep_view() == old(events).deep_view().push(event@),
{
    events.push(event);
    assert(events.deep_view() =~= old(events).deep_view().push(event@));
}

/// Moves the events of `more` to the end of `events`, in their order.
pub fn emit_all(events: &mut Vec<Event>, more: Vec<Event>)
    ensures
        final(events).deep_view() == old(events).deep_view() + more.deep_view(),
{
    let mut more = more;
    let ghost moved = more.deep_view();
    events.append(&mut more);
    assert(events.deep_view() =~= old(events).deep_view() + moved);
}

/// A tick of `text` at `player`.
pub fn tick_player(player: u8, text: &str) -> (event: Event)
    ensures
        event@ == tick(player, text@),
{
    Event::TickPlayer(TickPlayerEvent { player, value: text.to_owned() })
}

/// The character of the decimal digit `d`.
pub open spec fn digit(d: nat) -> char
    recommends
        d < 10,
{
    if d == 0 {
        '0'
    } else if d == 1 {
        '1'
    } else if d == 2 {
        '2'
    } else if d == 3 {
        '3'
    } else if d == 4 {
        '4'
    } else if d == 5 {
        '5'
    } else if d == 6 {
        '6'
    } else if d == 7 {
        '7'
    } else if d == 8 {
        '8'
    } else {
        '9'
    }
}

/// The digits of `n` in base ten, the highest first, without leading zeros.
pub open spec fn decimal(n: nat) -> Seq<char>
    decreases n,
{
    if n < 10 {
        seq![digit(n)]
    } else {
        decimal(n / 10).push(digit(n % 10))
    }
}

/// The text that reports a loss of `value` health: a minus sign and the
/// number.
pub open spec fn damage_text(value: u8) -> Seq<char> {
    seq!['-'] + decimal(value as nat)
}

fn digit_str(d: u8) -> (s: &'static str)
    requires
        d < 10,
    ensures
        s@ == seq![digit(d as nat)],
{
    proof {
        reveal_strlit("0");
        reveal_strlit("1");
        reveal_strlit("2");
        reveal_strlit("3");
        reveal_strlit("4");
        reveal_strlit("5");
        reveal_strlit("6");
        reveal_strlit("7");
        reveal_strlit("8");
        reveal_strlit("9");
    }
    let s = if d == 0 {
        "0"
    } else if d == 1 {
        "1"
    } else if d == 2 {
        "2"
    } else if d == 3 {
        "3"
    } else if d == 4 {
        "4"
    } else if d == 5 {
        "5"
    } else if d == 6 {
        "6"
    } else if d == 7 {
        "7"
    } else if d == 8 {
        "8"
    } else {
        "9"
    };
    assert(s@ =~= seq![digit(d as nat)]);
    s
}

/// The digits of `n` in base ten.
pub fn decimal_text(n: u8) -> (text: String)
    ensures
        text@ == decimal(n as nat),
{
    proof {
        reveal_with_fuel(decimal, 3);
    }
    let mut text = String::new();
    if n >= 100 {
        text.append(digit_str(n / 100));
    }
    if n >= 10 {
        text.append(digit_str((n / 10) % 10));
    }
    text.append(digit_str(n % 10));
    assert(text@ =~= decimal(n as nat));
    text
}

/// A tick at `player` that reports a loss of `value` health.
pub fn damage_tick(player: u8, value: u8) -> (event: Event)
    ensures
        event@ == tick(player, damage_text(value)),
{
    proof {
        reveal_strlit("-");
    }
    let mut text = "-".to_owned();
    assert(text@ =~= seq!['-']);
    let digits = decimal_text(value);
    text.append(digits.as_str());
    Event::TickPlayer(TickPlayerEvent { player, value: text })
}

/// The event that tells of a number of a player, where the number is not
/// what it was.
pub open spec fn stat_change(player: u8, stat: Stats, before: u8, after: u8) -> Seq<EventView> {
    if before == after {
        seq![]
    } else {
        seq![EventView::StatChange(StatChangeEvent { player, stat, value: after })]
    }
}

/// The events that tell of the numbers of a player that are not what they
/// were: health, then bullets, then dodges.
pub open spec fn player_changes(before: Player, after: Player) -> Seq<EventView> {
    stat_change(after.value, Stats::Health, before.health.value, after.health.value)
        + stat_change(after.value, Stats::Bullets, before.bullets.value, after.bullets.value)
        + stat_change(after.value, Stats::Dodges, before.dodges.value, after.dodges.value)
}

/// The events that tell what a frame has changed of what the screen shows
/// of the match: the phase, then the round, then the numbers of player one
/// and those of player two.
pub open spec fn changes(before: Game, after: Game) -> Seq<EventView> {
    (if before.play_state == after.play_state {
        seq![]
    } else {
        seq![EventView::PhaseChange(PhaseChangeEvent { phase: after.play_state })]
    }) + (if before.round_counter == after.round_counter {
        seq![]
    } else {
        seq![EventView::RoundChange(RoundChangeEvent { round: after.round_counter.0 })]
    }) + player_changes(before.player_one, after.player_one) + player_changes(
        before.player_two,
        after.player_two,
    )
}

fn tell_stat(player: u8, stat: Stats, before: u8, after: u8, events: &mut Vec<Event>)
    ensures
        final(events).deep_view() == old(events).deep_view() + stat_change(
            player,
            stat,
            before,
            after,
        ),
{
    if before != after {
        emit(events, Event::StatChange(StatChangeEvent { player, stat, value: after }));
    }
    assert(events.deep_view() =~= old(events).deep_view() + stat_change(
        player,
        stat,
        before,
        after,
    ));
}

fn tell_player(before: &Player, after: &Player, events: &mut Vec<Event>)
    ensures
        final(events).deep_view() == old(events).deep_view() + player_changes(*before, *after),
{
    tell_stat(after.value, Stats::Health, before.health.value, after.health.value, events);
    tell_stat(after.value, Stats::Bullets, before.bullets.value, after.bullets.value, events);
    tell_stat(after.value, Stats::Dodges, before.dodges.value, after.dodges.value, events);
    assert(events.deep_view() =~= old(events).deep_view() + player_changes(*before, *after));
}

/// Tells what a frame has changed of what the screen shows of the match.
pub fn tell_changes(before: &Game, after: &Game, events: &mut Vec<Event>)
    ensures
        final(events).deep_view() == old(events).deep_view() + changes(*before, *after),
{
    if before.play_state != after.play_state {
        emit(events, Event::PhaseChange(PhaseChangeEvent { phase: after.play_state }));
    }
    if before.round_counter.0 != after.round_counter.0 {
        emit(events, Event::RoundChange(RoundChangeEvent { round: after.round_counter.0 }));
    }
    tell_player(&before.player_one, &after.player_one, events);
    tell_player(&before.player_two, &after.player_two, events);
    assert(events.deep_view() =~= old(events).deep_view() + changes(*before, *after));
}

} // verus!
