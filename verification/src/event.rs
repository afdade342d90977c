//! What the simulation reports: every request it honours and every change it
//! makes, in the order in which they happen.

use vstd::multiset::Multiset;
use vstd::prelude::*;
use crate::card::CardId;
use crate::fixed::Fixed;
use crate::health::{
    DamageMessage, DeathMessage, GainBlockMessage, GainThornsMessage, HealMessage,
    ThornsDamageMessage,
};
use crate::player::PlayerHandle;

verus! {

/// A player draws up to `count` cards.
#[derive(Debug, Clone, Copy, PartialEq, Eq, Structural)]
pub struct DrawCardsMessage {
    pub player: PlayerHandle,
    pub count: usize,
}

/// A player plays the card in a hand slot.
#[derive(Debug, Clone, Copy, PartialEq, Eq, Structural)]
pub struct PlayCardMessage {
    pub player: PlayerHandle,
    pub hand_index: usize,
}

/// A card has left the hand and its effect is due.
#[derive(Debug, Clone, Copy, PartialEq, Eq, Structural)]
pub struct CardPlayedMessage {
    pub player: PlayerHandle,
    pub card_id: CardId,
}

/// A card was exhausted.
#[derive(Debug, Clone, Copy, PartialEq, Eq, Structural)]
pub struct CardExhaustedMessage {
    pub player: PlayerHandle,
    pub card_id: CardId,
}

/// A deck was refilled from the discard pile and shuffled; `deck` is the
/// deck as the shuffle left it, for whoever shows it.
#[derive(Debug, Clone, PartialEq, Eq)]
pub struct DeckReshuffledMessage {
    pub player: PlayerHandle,
    pub deck: Vec<CardId>,
}

/// The mathematical form of a [`DeckReshuffledMessage`].
pub struct DeckReshuffledView {
    pub player: PlayerHandle,
    pub deck: Seq<CardId>,
}

impl View for DeckReshuffledMessage {
    type V = DeckReshuffledView;

    open spec fn view(&self) -> DeckReshuffledView {
        DeckReshuffledView { player: self.player, deck: self.deck@ }
    }
}

/// A player gains strength.
#[derive(Debug, Clone, Copy, PartialEq, Eq, Structural)]
pub struct ApplyStrengthMessage {
    pub target: PlayerHandle,
    pub amount: Fixed,
}

/// A player is made vulnerable for longer.
#[derive(Debug, Clone, Copy, PartialEq, Eq, Structural)]
pub struct ApplyVulnerableMessage {
    pub target: PlayerHandle,
    pub duration: Fixed,
}

/// A player is weakened for longer.
#[derive(Debug, Clone, Copy, PartialEq, Eq, Structural)]
pub struct ApplyWeakMessage {
    pub target: PlayerHandle,
    pub duration: Fixed,
}

/// A status card goes to a player's discard pile.
#[derive(Debug, Clone, Copy, PartialEq, Eq, Structural)]
pub struct AddStatusCardMessage {
    pub player: PlayerHandle,
    pub card_id: CardId,
}

/// One entry of the log.
#[derive(Debug, Clone, PartialEq, Eq)]
pub enum GameEvent {
    DrawCards(DrawCardsMessage),
    PlayCard(PlayCardMessage),
    CardPlayed(CardPlayedMessage),
    CardExhausted(CardExhaustedMessage),
    DeckReshuffled(DeckReshuffledMessage),
    Damage(DamageMessage),
    ThornsDamage(ThornsDamageMessage),
    Heal(HealMessage),
    GainBlock(GainBlockMessage),
    GainThorns(GainThornsMessage),
    ApplyStrength(ApplyStrengthMessage),
    ApplyVulnerable(ApplyVulnerableMessage),
    ApplyWeak(ApplyWeakMessage),
    AddStatusCard(AddStatusCardMessage),
    Death(DeathMessage),
}

/// The mathematical form of a [`GameEvent`].
pub enum EventView {
    DrawCards(DrawCardsMessage),
    PlayCard(PlayCardMessage),
    CardPlayed(CardPlayedMessage),
    CardExhausted(CardExhaustedMessage),
    DeckReshuffled(DeckReshuffledView),
    Damage(DamageMessage),
    ThornsDamage(ThornsDamageMessage),
    Heal(HealMessage),
    GainBlock(GainBlockMessage),
    GainThorns(GainThornsMessage),
    ApplyStrength(ApplyStrengthMessage),
    ApplyVulnerable(ApplyVulnerableMessage),
    ApplyWeak(ApplyWeakMessage),
    AddStatusCard(AddStatusCardMessage),
    Death(DeathMessage),
}

impl View for GameEvent {
    type V = EventView;

    open spec fn view(&self) -> EventView {
        match self {
            GameEvent::DrawCards(msg) => EventView::DrawCards(*msg),
            GameEvent::PlayCard(msg) => EventView::PlayCard(*msg),
            GameEvent::CardPlayed(msg) => EventView::CardPlayed(*msg),
            GameEvent::CardExhausted(msg) => EventView::CardExhausted(*msg),
            GameEvent::DeckReshuffled(msg) => EventView::DeckReshuffled(msg@),
            GameEvent::Damage(msg) => EventView::Damage(*msg),
            GameEvent::ThornsDamage(msg) => EventView::ThornsDamage(*msg),
            GameEvent::Heal(msg) => EventView::Heal(*msg),
            GameEvent::GainBlock(msg) => EventView::GainBlock(*msg),
            GameEvent::GainThorns(msg) => EventView::GainThorns(*msg),
            GameEvent::ApplyStrength(msg) => EventView::ApplyStrength(*msg),
            GameEvent::ApplyVulnerable(msg) => EventView::ApplyVulnerable(*msg),
            GameEvent::ApplyWeak(msg) => EventView::ApplyWeak(*msg),
            GameEvent::AddStatusCard(msg) => EventView::AddStatusCard(*msg),
            GameEvent::Death(msg) => EventView::Death(*msg),
        }
    }
}

/// The mathematical form of a log: the forms of its entries, in order.
pub open spec fn log_view(log: Seq<GameEvent>) -> Seq<EventView> {
    log.map_values(|event: GameEvent| event@)
}

/// Write `event` to the end of `log`.
pub fn record(log: &mut Vec<GameEvent>, event: GameEvent)
    ensures
        final(log)@ == old(log)@.push(event),
        log_view(final(log)@) == log_view(old(log)@).push(event@),
{
    log.push(event);
    assert(log_view(log@) =~= log_view(old(log)@).push(event@));
}

/// The form of a log that holds nothing is empty, and the form of two logs
/// in a row is their forms in a row.
pub proof fn lemma_log_view(first: Seq<GameEvent>, second: Seq<GameEvent>)
    ensures
        log_view(Seq::<GameEvent>::empty()) == Seq::<EventView>::empty(),
        log_view(first + second) == log_view(first) + log_view(second),
        log_view(first).len() == first.len(),
{
    assert(log_view(Seq::<GameEvent>::empty()) =~= Seq::<EventView>::empty());
    assert(log_view(first + second) =~= log_view(first) + log_view(second));
}

/// How many status cards `log` adds to the discard pile of `player`.
pub open spec fn status_cards_added(log: Seq<EventView>, player: PlayerHandle) -> nat
    decreases log.len(),
{
    if log.len() == 0 {
        0
    } else {
        let before = status_cards_added(log.drop_last(), player);
        match log.last() {
            EventView::AddStatusCard(msg) => if msg.player == player {
                before + 1
            } else {
                before
            },
            _ => before,
        }
    }
}

/// The status cards that `log` adds to the discard pile of `player`.
pub open spec fn status_cards_in(log: Seq<EventView>, player: PlayerHandle) -> Multiset<CardId>
    decreases log.len(),
{
    if log.len() == 0 {
        Multiset::empty()
    } else {
        let before = status_cards_in(log.drop_last(), player);
        match log.last() {
            EventView::AddStatusCard(msg) => if msg.player == player {
                before.insert(msg.card_id)
            } else {
                before
            },
            _ => before,
        }
    }
}

} // verus!
