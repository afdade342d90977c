//! Players: everything one side of a match owns.

use vstd::prelude::*;
use vstd::multiset::Multiset;
use crate::card::CardId;
use crate::cost::{Clock, Cost};
use crate::deck::{copy_cards, Deck, DeckView, DiscardPile, Hand};
use crate::event::{log_view, EventView, GameEvent};
use crate::fixed::Fixed;
use crate::health::{Block, Health, Thorns};
use crate::rules::INITIAL_HP;
use crate::status::{Powers, Strength, Vulnerable, Weak};

verus! {

/// Stable player handle used for rollback input mapping.
#[derive(Debug, Clone, Copy, PartialEq, Eq, Hash, Structural)]
pub struct PlayerHandle(pub usize);

/// One player's whole state.  Together with the opponent's it is all that a
/// rollback has to save and restore.
#[derive(Debug, Clone, PartialEq, Eq)]
pub struct PlayerBundle {
    pub handle: PlayerHandle,
    pub health: Health,
    pub block: Block,
    pub thorns: Thorns,
    pub clock: Clock,
    pub strength: Strength,
    pub vulnerable: Vulnerable,
    pub weak: Weak,
    pub powers: Powers,
    pub deck: Deck,
    pub hand: Hand,
    pub discard_pile: DiscardPile,
    /// The cards that have left the rotation for good: exhausted cards, and
    /// power cards, which stay in play once played.
    pub exhausted: Vec<CardId>,
}

/// The mathematical form of a [`PlayerBundle`].
pub struct PlayerView {
    pub handle: PlayerHandle,
    pub health: Health,
    pub block: Block,
    pub thorns: Thorns,
    pub clock: Clock,
    pub strength: Strength,
    pub vulnerable: Vulnerable,
    pub weak: Weak,
    pub powers: Powers,
    pub deck: DeckView,
    pub hand: Seq<CardId>,
    pub discard: Seq<CardId>,
    pub exhausted: Seq<CardId>,
}

impl View for PlayerBundle {
    type V = PlayerView;

    open spec fn view(&self) -> PlayerView {
        PlayerView {
            handle: self.handle,
            health: self.health,
            block: self.block,
            thorns: self.thorns,
            clock: self.clock,
            strength: self.strength,
            vulnerable: self.vulnerable,
            weak: self.weak,
            powers: self.powers,
            deck: self.deck@,
            hand: self.hand@,
            discard: self.discard_pile@,
            exhausted: self.exhausted@,
        }
    }
}

impl PlayerView {
    /// A player at the start of a match: full health, no cost yet, nothing
    /// attached, the deck shuffled with the player's own seed.
    pub open spec fn fresh(
        match_seed: u64,
        handle: usize,
        cost_rate: Fixed,
        cards: Seq<CardId>,
        hp: Fixed,
    ) -> PlayerView {
        PlayerView {
            handle: PlayerHandle(handle),
            health: Health { current: hp, max: hp },
            block: Block { current: 0 },
            thorns: Thorns { damage: 0 },
            clock: Clock { cost: Cost { current: 0, rate: cost_rate }, acceleration: None },
            strength: Strength { amount: 0 },
            vulnerable: Vulnerable { duration: 0 },
            weak: Weak { duration: 0 },
            powers: Powers::none(),
            deck: (DeckView {
                cards,
                rng_state: crate::deck::seed_of(match_seed, handle),
            }).shuffled(),
            hand: Seq::empty(),
            discard: Seq::empty(),
            exhausted: Seq::empty(),
        }
    }

    /// How many cards the player owns: deck, hand, discard pile and what has
    /// left the rotation.
    pub open spec fn card_count(self) -> nat {
        self.deck.cards.len() + self.hand.len() + self.discard.len() + self.exhausted.len()
    }

    /// The cards the player owns, without their order.
    pub open spec fn all_cards(self) -> Multiset<CardId> {
        self.deck.cards.to_multiset().add(self.hand.to_multiset()).add(
            self.discard.to_multiset(),
        ).add(self.exhausted.to_multiset())
    }
}

impl PlayerBundle {
    /// A player at the start of a match, with the initial health of the rules.
    pub fn new(match_seed: u64, handle: usize, cost_rate: Fixed, initial_deck: Vec<CardId>) -> (r:
        Self)
        ensures
            r@ == PlayerView::fresh(match_seed, handle, cost_rate, initial_deck@, INITIAL_HP),
    {
        Self::with_health(match_seed, handle, cost_rate, initial_deck, INITIAL_HP)
    }

    /// A player at the start of a match, with `hp` health.
    pub fn with_health(
        match_seed: u64,
        handle: usize,
        cost_rate: Fixed,
        initial_deck: Vec<CardId>,
        hp: Fixed,
    ) -> (r: Self)
        ensures
            r@ == PlayerView::fresh(match_seed, handle, cost_rate, initial_deck@, hp),
    {
        let mut deck = Deck::new_with_seed(initial_deck, Deck::seed_for_handle(match_seed, handle));
        deck.shuffle();
        PlayerBundle {
            handle: PlayerHandle(handle),
            health: Health::new(hp),
            block: Block::default(),
            thorns: Thorns::default(),
            clock: Clock { cost: Cost::new(cost_rate), acceleration: None },
            strength: Strength::default(),
            vulnerable: Vulnerable::default(),
            weak: Weak::default(),
            powers: Powers::default(),
            deck,
            hand: Hand::default(),
            discard_pile: DiscardPile::default(),
            exhausted: Vec::new(),
        }
    }

    /// A copy of the player, to go back to after a rollback.
    pub fn snapshot(&self) -> (copy: Self)
        ensures
            copy@ == self@,
    {
        PlayerBundle {
            handle: self.handle,
            health: self.health,
            block: self.block,
            thorns: self.thorns,
            clock: self.clock,
            strength: self.strength,
            vulnerable: self.vulnerable,
            weak: self.weak,
            powers: self.powers,
            deck: Deck { cards: copy_cards(&self.deck.cards), rng_state: self.deck.rng_state },
            hand: Hand { cards: copy_cards(&self.hand.cards) },
            discard_pile: DiscardPile { cards: copy_cards(&self.discard_pile.cards) },
            exhausted: copy_cards(&self.exhausted),
        }
    }

    /// How many cards have left the rotation for good.
    pub fn exhausted_count(&self) -> (r: usize)
        ensures
            r == self@.exhausted.len(),
    {
        self.exhausted.len()
    }
}

/// Which of the two players at a table is meant.
#[derive(Debug, Clone, Copy, PartialEq, Eq, Structural)]
pub enum Side {
    /// The player who acts.
    Me,
    /// The opponent.
    Foe,
}

/// The two players as one of them sees the match, and the log written so
/// far.
pub struct Table {
    pub me: PlayerView,
    pub foe: PlayerView,
    pub log: Seq<EventView>,
}

impl Table {
    /// The table as the players and the log stand.
    pub open spec fn of(me: PlayerBundle, foe: PlayerBundle, log: Vec<GameEvent>) -> Table {
        Table { me: me@, foe: foe@, log: log_view(log@) }
    }

    /// The same table as the opponent sees it.
    pub open spec fn flipped(self) -> Table {
        Table { me: self.foe, foe: self.me, log: self.log }
    }

    /// The table with `event` written to the log.
    pub open spec fn logged(self, event: EventView) -> Table {
        Table { me: self.me, foe: self.foe, log: self.log.push(event) }
    }

    /// The player on `side`.
    pub open spec fn player(self, side: Side) -> PlayerView {
        match side {
            Side::Me => self.me,
            Side::Foe => self.foe,
        }
    }

    /// The table with `player` on `side`.
    pub open spec fn with_player(self, side: Side, player: PlayerView) -> Table {
        match side {
            Side::Me => Table { me: player, foe: self.foe, log: self.log },
            Side::Foe => Table { me: self.me, foe: player, log: self.log },
        }
    }
}

/// A deck for trying things out: a dozen of the first ten cards, some of
/// them twice.
pub fn create_test_deck() -> (deck: Vec<CardId>)
    ensures
        deck@ == seq![
            CardId(1),
            CardId(1),
            CardId(2),
            CardId(3),
            CardId(4),
            CardId(5),
            CardId(5),
            CardId(6),
            CardId(7),
            CardId(8),
            CardId(9),
            CardId(10),
        ],
{
    let mut deck: Vec<CardId> = Vec::new();
    deck.push(CardId(1));
    deck.push(CardId(1));
    deck.push(CardId(2));
    deck.push(CardId(3));
    deck.push(CardId(4));
    deck.push(CardId(5));
    deck.push(CardId(5));
    deck.push(CardId(6));
    deck.push(CardId(7));
    deck.push(CardId(8));
    deck.push(CardId(9));
    deck.push(CardId(10));
    assert(deck@ =~= seq![
        CardId(1),
        CardId(1),
        CardId(2),
        CardId(3),
        CardId(4),
        CardId(5),
        CardId(5),
        CardId(6),
        CardId(7),
        CardId(8),
        CardId(9),
        CardId(10),
    ]);
    deck
}

} // verus!
