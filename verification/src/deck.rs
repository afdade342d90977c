//! Deck, hand and discard pile, and the generator that orders the deck.

use vstd::prelude::*;
use crate::card::{
    is_status, lookup, CardDefView, CardEffect, CardId, CardRegistry, CardType, EffectTree,
};
use crate::event::{
    CardExhaustedMessage, CardPlayedMessage, DeckReshuffledMessage, DeckReshuffledView,
    DrawCardsMessage, EventView, GameEvent, record,
};
use crate::health::{deal_damage, DamageKind};
use crate::player::{PlayerBundle, PlayerView, Side, Table};
use crate::rules::MAX_HAND_SIZE;

verus! {

/// The generator state of a deck made without a seed.
pub const DEFAULT_DECK_SEED: u64 = 0x23d3_44d3_6f2a_7c15;

/// The multiplier of the generator.
pub const RNG_MULTIPLIER: u64 = 6364136223846793005;

/// What a player's handle is multiplied by to spread the players' seeds.
pub const SEED_SPREAD: u64 = 0x9e37_79b9_7f4a_7c15;

/// The state that follows `state`: a linear congruential step in 64 bits.
pub open spec fn next_state(state: u64) -> u64 {
    ((state as nat * RNG_MULTIPLIER as nat + 1) % 0x1_0000_0000_0000_0000) as u64
}

/// The seed of the deck of player `handle` in the match seeded `match_seed`.
pub open spec fn seed_of(match_seed: u64, handle: usize) -> u64 {
    DEFAULT_DECK_SEED ^ match_seed ^ (((handle as nat * SEED_SPREAD as nat)
        % 0x1_0000_0000_0000_0000) as u64)
}

/// `s` with the items at `i` and `j` exchanged.
pub open spec fn swapped(s: Seq<CardId>, i: int, j: int) -> Seq<CardId> {
    s.update(i, s[j]).update(j, s[i])
}

/// `s` without the item at `i`, whose place the last item takes.
pub open spec fn swap_removed(s: Seq<CardId>, i: int) -> Seq<CardId> {
    s.update(i, s.last()).drop_last()
}

/// The mathematical form of a [`Deck`].
pub struct DeckView {
    pub cards: Seq<CardId>,
    pub rng_state: u64,
}

impl DeckView {
    /// The deck after the shuffle has placed every position above `i`: for
    /// each position from `i` down to 1 the generator picks a position at or
    /// below it, and the two cards are exchanged.
    pub open spec fn shuffled_from(self, i: int) -> DeckView
        decreases i,
    {
        if i < 1 || i >= self.cards.len() {
            self
        } else {
            let state = next_state(self.rng_state);
            let j = state as int % (i + 1);
            (DeckView { cards: swapped(self.cards, i, j), rng_state: state }).shuffled_from(i - 1)
        }
    }

    /// The deck after a shuffle.
    pub open spec fn shuffled(self) -> DeckView {
        self.shuffled_from(self.cards.len() - 1)
    }

    /// The position that the next draw takes.
    pub open spec fn draw_index(self) -> int {
        next_state(self.rng_state) as int % (self.cards.len() as int)
    }

    /// The card that the next draw gives, if the deck holds any.
    pub open spec fn top(self) -> Option<CardId> {
        if self.cards.len() == 0 {
            None
        } else {
            Some(self.cards[self.draw_index()])
        }
    }

    /// The deck after a draw.  An empty deck is left as it is.
    pub open spec fn drawn(self) -> DeckView {
        if self.cards.len() == 0 {
            self
        } else {
            DeckView {
                cards: swap_removed(self.cards, self.draw_index()),
                rng_state: next_state(self.rng_state),
            }
        }
    }

    /// The deck with `cards` put under it.
    pub open spec fn with_cards(self, cards: Seq<CardId>) -> DeckView {
        DeckView { cards: self.cards + cards, rng_state: self.rng_state }
    }
}

/// The player's deck of cards (draw pile) and the generator that shuffles it
/// and picks from it.
#[derive(Debug, Clone, PartialEq, Eq)]
pub struct Deck {
    pub cards: Vec<CardId>,
    pub rng_state: u64,
}

impl View for Deck {
    type V = DeckView;

    open spec fn view(&self) -> DeckView {
        DeckView { cards: self.cards@, rng_state: self.rng_state }
    }
}

impl Default for Deck {
    fn default() -> (r: Self)
        ensures
            r@ == (DeckView { cards: Seq::empty(), rng_state: DEFAULT_DECK_SEED }),
    {
        Deck { cards: Vec::new(), rng_state: DEFAULT_DECK_SEED }
    }
}

impl Deck {
    pub fn new(cards: Vec<CardId>) -> (r: Self)
        ensures
            r@ == (DeckView { cards: cards@, rng_state: DEFAULT_DECK_SEED }),
    {
        Deck { cards, rng_state: DEFAULT_DECK_SEED }
    }

    pub fn new_with_seed(cards: Vec<CardId>, seed: u64) -> (r: Self)
        ensures
            r@ == (DeckView { cards: cards@, rng_state: seed }),
    {
        Deck { cards, rng_state: seed }
    }

    /// The seed of a player's deck: the default seed, the match seed and the
    /// spread handle, combined bit by bit.
    pub fn seed_for_handle(match_seed: u64, handle: usize) -> (seed: u64)
        ensures
            seed == seed_of(match_seed, handle),
    {
        DEFAULT_DECK_SEED ^ match_seed ^ (handle as u64).wrapping_mul(SEED_SPREAD)
    }

    /// Shuffle the deck.
    pub fn shuffle(&mut self)
        ensures
            final(self)@ == old(self)@.shuffled(),
            final(self)@.cards.len() == old(self)@.cards.len(),
            final(self)@.cards.to_multiset() == old(self)@.cards.to_multiset(),
    {
        proof {
            lemma_shuffle_permutes(self@, self@.cards.len() - 1);
        }
        if self.cards.len() < 2 {
            return ;
        }
        let mut i: usize = self.cards.len() - 1;
        while i >= 1
            invariant
                i < self.cards.len(),
                self@.shuffled_from(i as int) == old(self)@.shuffled(),
            decreases i,
        {
            let j = (self.next_rng() % (i as u64 + 1)) as usize;
            let upper = self.cards[i];
            let lower = self.cards[j];
            self.cards[i] = lower;
            self.cards[j] = upper;
            i = i - 1;
        }
    }

    /// Draw a card from the deck: the generator picks a position, the card
    /// there leaves, and the last card takes its place.
    pub fn draw(&mut self) -> (card: Option<CardId>)
        ensures
            card == old(self)@.top(),
            final(self)@ == old(self)@.drawn(),
            card.is_some() <==> old(self)@.cards.len() > 0,
            card.is_some() ==> final(self)@.cards.len() + 1 == old(self)@.cards.len(),
            card.is_some() ==> old(self)@.cards.to_multiset()
                == final(self)@.cards.to_multiset().insert(card.unwrap()),
    {
        if self.cards.len() == 0 {
            return None;
        }
        let count = self.cards.len() as u64;
        let index = (self.next_rng() % count) as usize;
        proof {
            lemma_swap_remove_takes_one(self.cards@, index as int);
        }
        Some(self.cards.swap_remove(index))
    }

    /// Add cards to the deck (used when recycling discard pile).
    pub fn add_cards(&mut self, cards: Vec<CardId>)
        ensures
            final(self)@ == old(self)@.with_cards(cards@),
    {
        let mut cards = cards;
        self.cards.append(&mut cards);
    }

    pub fn is_empty(&self) -> (r: bool)
        ensures
            r == (self@.cards.len() == 0),
    {
        self.cards.len() == 0
    }

    pub fn len(&self) -> (r: usize)
        ensures
            r == self@.cards.len(),
    {
        self.cards.len()
    }

    /// Step the generator and return its new state.
    pub fn next_rng(&mut self) -> (state: u64)
        ensures
            state == next_state(old(self).rng_state),
            final(self).rng_state == state,
            final(self).cards == old(self).cards,
    {
        let product = self.rng_state.wrapping_mul(RNG_MULTIPLIER);
        proof {
            lemma_step_wraps(self.rng_state as nat * RNG_MULTIPLIER as nat);
        }
        self.rng_state = product.wrapping_add(1);
        self.rng_state
    }
}

/// What undoes the spreading of a handle: the inverse of [`SEED_SPREAD`] in
/// 64-bit arithmetic.
pub const SEED_GATHER: u64 = 0xf1de_83e1_9937_733d;

/// Different players get different seeds in one match.
pub proof fn lemma_seeds_differ(match_seed: u64, one: usize, other: usize)
    requires
        one != other,
    ensures
        seed_of(match_seed, one) != seed_of(match_seed, other),
{
    let spread_one = ((one as nat * SEED_SPREAD as nat) % 0x1_0000_0000_0000_0000) as u64;
    let spread_other = ((other as nat * SEED_SPREAD as nat) % 0x1_0000_0000_0000_0000) as u64;
    lemma_spread_is_undone(one as u64);
    lemma_spread_is_undone(other as u64);
    assert(spread_one != spread_other);
    let base = DEFAULT_DECK_SEED ^ match_seed;
    assert(base ^ spread_one != base ^ spread_other) by (bit_vector)
        requires
            spread_one != spread_other,
    ;
}

/// Multiplying by [`SEED_GATHER`] undoes multiplying by [`SEED_SPREAD`].
proof fn lemma_spread_is_undone(x: u64)
    ensures
        (((x as int * SEED_SPREAD as int) % 0x1_0000_0000_0000_0000) * SEED_GATHER as int)
            % 0x1_0000_0000_0000_0000 == x,
{
    let m: int = 0x1_0000_0000_0000_0000;
    let spread: int = SEED_SPREAD as int;
    let gather: int = SEED_GATHER as int;
    let turns: int = 0x957bbf35006ed677;
    let p = x as int * spread;
    vstd::arithmetic::div_mod::lemma_mul_mod_noop_left(p, gather, m);
    assert(spread * gather == 1 + m * turns);
    assert(p * gather == m * (turns * x as int) + x as int) by (nonlinear_arith)
        requires
            p == x as int * spread,
            spread * gather == 1 + m * turns,
    ;
    vstd::arithmetic::div_mod::lemma_mod_multiples_vanish(turns * x as int, x as int, m);
    vstd::arithmetic::div_mod::lemma_small_mod(x as nat, m as nat);
}

/// Adding one to a wrapped product is the wrapped product plus one.
proof fn lemma_step_wraps(p: nat)
    ensures
        (p % 0x1_0000_0000_0000_0000 + 1) % 0x1_0000_0000_0000_0000 == (p + 1)
            % 0x1_0000_0000_0000_0000,
{
    vstd::arithmetic::div_mod::lemma_add_mod_noop(p as int, 1, 0x1_0000_0000_0000_0000);
}

/// Exchanging two cards keeps the cards that a pile holds.
pub proof fn lemma_swap_permutes(s: Seq<CardId>, i: int, j: int)
    requires
        0 <= i < s.len(),
        0 <= j < s.len(),
    ensures
        swapped(s, i, j).len() == s.len(),
        swapped(s, i, j).to_multiset() == s.to_multiset(),
{
    broadcast use vstd::seq_lib::group_to_multiset_ensures;

    let mid = s.update(i, s[j]);
    assert(mid.to_multiset() == s.to_multiset().insert(s[j]).remove(s[i]));
    assert(swapped(s, i, j).to_multiset() == mid.to_multiset().insert(s[i]).remove(mid[j]));
    assert(mid[j] == s[j]);
    assert(swapped(s, i, j).to_multiset() =~= s.to_multiset());
}

/// A shuffle keeps the cards that the deck holds.
pub proof fn lemma_shuffle_permutes(d: DeckView, i: int)
    ensures
        d.shuffled_from(i).cards.len() == d.cards.len(),
        d.shuffled_from(i).cards.to_multiset() == d.cards.to_multiset(),
    decreases i,
{
    if !(i < 1 || i >= d.cards.len()) {
        let state = next_state(d.rng_state);
        let j = state as int % (i + 1);
        lemma_swap_permutes(d.cards, i, j);
        lemma_shuffle_permutes(DeckView { cards: swapped(d.cards, i, j), rng_state: state }, i - 1);
    }
}

/// Taking the card at `i` out leaves the other cards.
pub proof fn lemma_swap_remove_takes_one(s: Seq<CardId>, i: int)
    requires
        0 <= i < s.len(),
    ensures
        swap_removed(s, i).len() + 1 == s.len(),
        s.to_multiset() == swap_removed(s, i).to_multiset().insert(s[i]),
{
    broadcast use vstd::seq_lib::group_to_multiset_ensures;

    let mid = s.update(i, s.last());
    assert(mid.to_multiset() == s.to_multiset().insert(s.last()).remove(s[i]));
    assert(mid =~= mid.drop_last().push(s.last()));
    assert(mid.to_multiset() == mid.drop_last().to_multiset().insert(s.last()));
    assert(s.contains(s[i]));
    assert(s.to_multiset().count(s[i]) > 0);
    let whole = s.to_multiset();
    let rest = swap_removed(s, i).to_multiset();
    assert forall|v: CardId| whole.count(v) == #[trigger] rest.insert(s[i]).count(v) by {
        assert(whole.insert(s.last()).remove(s[i]).count(v) == rest.insert(s.last()).count(v));
    }
    assert(whole =~= rest.insert(s[i]));
}

/// A copy of `cards`.
pub fn copy_cards(cards: &Vec<CardId>) -> (copy: Vec<CardId>)
    ensures
        copy@ == cards@,
{
    let mut copy: Vec<CardId> = Vec::new();
    let mut i: usize = 0;
    while i < cards.len()
        invariant
            i <= cards.len(),
            copy@ == cards@.take(i as int),
        decreases cards.len() - i,
    {
        copy.push(cards[i]);
        assert(cards@.take(i + 1) =~= cards@.take(i as int).push(cards@[i as int]));
        i = i + 1;
    }
    assert(cards@.take(cards.len() as int) =~= cards@);
    copy
}

/// The player's hand of cards.
#[derive(Debug, Clone, PartialEq, Eq)]
pub struct Hand {
    pub cards: Vec<CardId>,
}

impl View for Hand {
    type V = Seq<CardId>;

    open spec fn view(&self) -> Seq<CardId> {
        self.cards@
    }
}

impl Default for Hand {
    fn default() -> (r: Self)
        ensures
            r@ == Seq::<CardId>::empty(),
    {
        Hand { cards: Vec::new() }
    }
}

impl Hand {
    pub fn add_card(&mut self, card_id: CardId)
        ensures
            final(self)@ == old(self)@.push(card_id),
    {
        self.cards.push(card_id);
    }

    /// Take the card in slot `index` out of the hand; the cards behind it
    /// move up.  `None`, and the hand unchanged, where the slot is empty.
    pub fn remove_card(&mut self, index: usize) -> (card: Option<CardId>)
        ensures
            index < old(self)@.len() ==> card == Some(old(self)@[index as int]) && final(self)@
                == old(self)@.remove(index as int),
            index >= old(self)@.len() ==> card.is_none() && final(self)@ == old(self)@,
    {
        if index < self.cards.len() {
            Some(self.cards.remove(index))
        } else {
            None
        }
    }

    /// The card in slot `index`, if the slot holds one.
    pub fn get(&self, index: usize) -> (card: Option<CardId>)
        ensures
            card == if index < self@.len() {
                Some(self@[index as int])
            } else {
                None
            },
    {
        if index < self.cards.len() {
            Some(self.cards[index])
        } else {
            None
        }
    }

    pub fn len(&self) -> (r: usize)
        ensures
            r == self@.len(),
    {
        self.cards.len()
    }

    pub fn is_empty(&self) -> (r: bool)
        ensures
            r == (self@.len() == 0),
    {
        self.cards.len() == 0
    }
}

/// The player's discard pile.
#[derive(Debug, Clone, PartialEq, Eq)]
pub struct DiscardPile {
    pub cards: Vec<CardId>,
}

impl View for DiscardPile {
    type V = Seq<CardId>;

    open spec fn view(&self) -> Seq<CardId> {
        self.cards@
    }
}

impl Default for DiscardPile {
    fn default() -> (r: Self)
        ensures
            r@ == Seq::<CardId>::empty(),
    {
        DiscardPile { cards: Vec::new() }
    }
}

impl DiscardPile {
    pub fn add_card(&mut self, card_id: CardId)
        ensures
            final(self)@ == old(self)@.push(card_id),
    {
        self.cards.push(card_id);
    }

    /// Take all cards from discard pile (to recycle into deck).
    pub fn take_all(&mut self) -> (cards: Vec<CardId>)
        ensures
            cards@ == old(self)@,
            final(self)@ == Seq::<CardId>::empty(),
    {
        let mut cards: Vec<CardId> = Vec::new();
        cards.append(&mut self.cards);
        assert(cards@ =~= old(self)@);
        cards
    }

    pub fn len(&self) -> (r: usize)
        ensures
            r == self@.len(),
    {
        self.cards.len()
    }

    pub fn is_empty(&self) -> (r: bool)
        ensures
            r == (self@.len() == 0),
    {
        self.cards.len() == 0
    }
}

impl PlayerView {
    /// Whether the deck has run out while the discard pile holds cards.
    pub open spec fn needs_recycling(self) -> bool {
        self.deck.cards.len() == 0 && self.discard.len() > 0
    }

    /// The player after the discard pile has gone back into the deck and the
    /// deck has been shuffled.
    pub open spec fn recycled(self) -> PlayerView {
        PlayerView {
            deck: self.deck.with_cards(self.discard).shuffled(),
            discard: Seq::empty(),
            ..self
        }
    }

    /// The player after the card that the deck gives has gone to the hand.
    pub open spec fn one_drawn(self) -> PlayerView {
        match self.deck.top() {
            Some(card) => PlayerView {
                deck: self.deck.drawn(),
                hand: self.hand.push(card),
                ..self
            },
            None => self,
        }
    }

    /// How many more cards the player draws for each status card drawn.
    pub open spec fn evolve_bonus(self) -> nat {
        match self.powers.evolve {
            Some(evolve) => evolve.draw_on_status as nat,
            None => 0,
        }
    }

    /// The damage that the opponent takes for each status card drawn.
    pub open spec fn fire_damage(self) -> Option<i64> {
        match self.powers.fire_breathing {
            Some(fire) => if fire.damage_on_status_draw > 0 {
                Some(fire.damage_on_status_draw)
            } else {
                None
            },
            None => None,
        }
    }

    /// Whether the card leaves the rotation when this player plays it: a
    /// power, a card whose effect is to be exhausted, and any skill under
    /// Corruption.
    pub open spec fn retires(self, registry: Seq<CardDefView>, card: CardId) -> bool {
        match lookup(registry, card) {
            Some(def) => def.card_type == CardType::Power || self.exhausts(registry, card),
            None => false,
        }
    }

    /// Whether playing the card counts as exhausting it.
    pub open spec fn exhausts(self, registry: Seq<CardDefView>, card: CardId) -> bool {
        match lookup(registry, card) {
            Some(def) => def.effect == EffectTree::Exhaust || (def.card_type == CardType::Skill
                && self.powers.corruption.is_some()),
            None => false,
        }
    }

    /// The player after the card in hand slot `index` has been played: it
    /// leaves the hand and goes under the deck, or out of the rotation.
    pub open spec fn played(self, registry: Seq<CardDefView>, index: int) -> PlayerView {
        let card = self.hand[index];
        if self.retires(registry, card) {
            PlayerView {
                hand: self.hand.remove(index),
                exhausted: self.exhausted.push(card),
                ..self
            }
        } else {
            PlayerView {
                hand: self.hand.remove(index),
                deck: self.deck.with_cards(seq![card]),
                ..self
            }
        }
    }
}

impl Table {
    /// The table after the acting player has drawn up to `remaining` cards.
    ///
    /// Drawing stops when the hand is full or when deck and discard pile are
    /// both empty.  A deck that has run out is first refilled from the discard
    /// pile and shuffled, which is logged with the deck as the shuffle left it.  Each status card drawn has the
    /// player's Evolve add to what remains to be drawn, and the player's Fire
    /// Breathing hit the opponent.
    pub open spec fn cards_drawn(self, remaining: nat, registry: Seq<CardDefView>) -> Table
        decreases MAX_HAND_SIZE - self.me.hand.len(),
    {
        if remaining == 0 || self.me.hand.len() >= MAX_HAND_SIZE {
            self
        } else {
            let ready = if self.me.needs_recycling() {
                Table { me: self.me.recycled(), ..self }.logged(
                    EventView::DeckReshuffled(
                        DeckReshuffledView {
                            player: self.me.handle,
                            deck: self.me.recycled().deck.cards,
                        },
                    ),
                )
            } else {
                self
            };
            match ready.me.deck.top() {
                None => ready,
                Some(card) => {
                    let held = Table { me: ready.me.one_drawn(), ..ready };
                    if is_status(registry, card) {
                        let more = (remaining - 1 + held.me.evolve_bonus()) as nat;
                        match held.me.fire_damage() {
                            Some(damage) => held.damaged(
                                Side::Foe,
                                damage,
                                Some(Side::Me),
                                DamageKind::Power,
                            ).cards_drawn(more, registry),
                            None => held.cards_drawn(more, registry),
                        }
                    } else {
                        held.cards_drawn((remaining - 1) as nat, registry)
                    }
                },
            }
        }
    }

    /// The table after a request of the acting player to draw `count` cards:
    /// the request is logged, then the cards are drawn.
    pub open spec fn draw_handled(self, count: usize, registry: Seq<CardDefView>) -> Table {
        self.logged(
            EventView::DrawCards(DrawCardsMessage { player: self.me.handle, count }),
        ).cards_drawn(count as nat, registry)
    }

    /// The table after the acting player has played the card in hand slot
    /// `index`.  Nothing happens where the slot is empty.  Otherwise the card
    /// moves, and the log says that it was played and, where that is so, that
    /// it was exhausted.
    pub open spec fn play_handled(self, index: usize, registry: Seq<CardDefView>) -> Table {
        if index >= self.me.hand.len() {
            self
        } else {
            let card = self.me.hand[index as int];
            let moved = Table { me: self.me.played(registry, index as int), ..self }.logged(
                EventView::CardPlayed(CardPlayedMessage { player: self.me.handle, card_id: card }),
            );
            if self.me.exhausts(registry, card) {
                moved.logged(
                    EventView::CardExhausted(
                        CardExhaustedMessage { player: self.me.handle, card_id: card },
                    ),
                )
            } else {
                moved
            }
        }
    }

    /// What the play of hand slot `index` hands on to the effect stage.
    pub open spec fn play_outcome(self, index: usize, registry: Seq<CardDefView>) -> Option<
        PlayOutcome,
    > {
        if index >= self.me.hand.len() {
            None
        } else {
            let card = self.me.hand[index as int];
            Some(PlayOutcome { card_id: card, exhausted: self.me.exhausts(registry, card) })
        }
    }
}

/// Recycling the discard pile moves cards between piles and neither makes
/// nor loses any.
pub proof fn lemma_recycled_keeps_cards(player: PlayerView)
    ensures
        player.recycled().all_cards() == player.all_cards(),
        player.recycled().card_count() == player.card_count(),
{
    broadcast use vstd::seq_lib::group_to_multiset_ensures;

    let filled = player.deck.with_cards(player.discard);
    lemma_shuffle_permutes(filled, filled.cards.len() - 1);
    vstd::seq_lib::lemma_multiset_commutative(player.deck.cards, player.discard);
    assert(Seq::<CardId>::empty().to_multiset() =~= vstd::multiset::Multiset::<CardId>::empty());
    assert(player.recycled().all_cards() =~= player.all_cards());
}

/// Drawing a card moves it from the deck to the hand and neither makes nor
/// loses any.
pub proof fn lemma_one_drawn_keeps_cards(player: PlayerView)
    ensures
        player.one_drawn().all_cards() == player.all_cards(),
        player.one_drawn().card_count() == player.card_count(),
{
    broadcast use vstd::seq_lib::group_to_multiset_ensures;

    if player.deck.cards.len() > 0 {
        lemma_swap_remove_takes_one(player.deck.cards, player.deck.draw_index());
        let card = player.deck.top().unwrap();
        assert(player.hand.push(card).to_multiset() =~= player.hand.to_multiset().insert(card));
        assert(player.one_drawn().all_cards() =~= player.all_cards());
    }
}

/// Playing a card moves it from the hand to the deck or out of the rotation
/// and neither makes nor loses any.
pub proof fn lemma_played_keeps_cards(player: PlayerView, registry: Seq<CardDefView>, index: int)
    requires
        0 <= index < player.hand.len(),
    ensures
        player.played(registry, index).all_cards() == player.all_cards(),
        player.played(registry, index).card_count() == player.card_count(),
{
    broadcast use vstd::seq_lib::group_to_multiset_ensures;

    let card = player.hand[index];
    assert(player.hand.remove(index).to_multiset() =~= player.hand.to_multiset().remove(card));
    assert(player.hand.contains(card));
    assert(player.hand.to_multiset().count(card) > 0);
    if player.retires(registry, card) {
        assert(player.exhausted.push(card).to_multiset() =~= player.exhausted.to_multiset().insert(
            card,
        ));
    } else {
        vstd::seq_lib::lemma_multiset_commutative(player.deck.cards, seq![card]);
        assert(seq![card] =~= Seq::<CardId>::empty().push(card));
        assert(seq![card].to_multiset() =~= vstd::multiset::Multiset::<CardId>::empty().insert(
            card,
        ));
    }
    assert(player.played(registry, index).all_cards() =~= player.all_cards());
}

/// A card that was played, and whether playing it exhausted it.
#[derive(Debug, Clone, Copy, PartialEq, Eq, Structural)]
pub struct PlayOutcome {
    pub card_id: CardId,
    pub exhausted: bool,
}

/// Draw up to `count` cards from the deck of `me` into the hand, recycling
/// the discard pile when the deck runs out.
pub fn handle_draw_cards(
    me: &mut PlayerBundle,
    foe: &mut PlayerBundle,
    log: &mut Vec<GameEvent>,
    count: usize,
    registry: &CardRegistry,
)
    ensures
        Table::of(*final(me), *final(foe), *final(log)) == Table::of(
            *old(me),
            *old(foe),
            *old(log),
        ).draw_handled(count, registry@),
{
    record(log, GameEvent::DrawCards(DrawCardsMessage { player: me.handle, count }));
    let evolve_bonus: u128 = match me.powers.evolve {
        Some(evolve) => evolve.draw_on_status as u128,
        None => 0,
    };
    let fire_damage: Option<i64> = match me.powers.fire_breathing {
        Some(fire) => if fire.damage_on_status_draw > 0 {
            Some(fire.damage_on_status_draw)
        } else {
            None
        },
        None => None,
    };
    let ghost goal = Table::of(*old(me), *old(foe), *old(log)).draw_handled(count, registry@);
    let mut draws_remaining: u128 = count as u128;
    while draws_remaining > 0 && me.hand.len() < MAX_HAND_SIZE
        invariant
            Table::of(*me, *foe, *log).cards_drawn(draws_remaining as nat, registry@) == goal,
            evolve_bonus == me@.evolve_bonus(),
            fire_damage == me@.fire_damage(),
            evolve_bonus <= u32::MAX,
            draws_remaining <= usize::MAX + me@.hand.len() * 0x1_0000_0000,
        decreases MAX_HAND_SIZE - me@.hand.len(), draws_remaining,
    {
        draws_remaining = draws_remaining - 1;
        if me.deck.is_empty() && !me.discard_pile.is_empty() {
            let recycled = me.discard_pile.take_all();
            me.deck.add_cards(recycled);
            me.deck.shuffle();
            let deck = copy_cards(&me.deck.cards);
            record(log, GameEvent::DeckReshuffled(DeckReshuffledMessage { player: me.handle, deck }));
        }
        match me.deck.draw() {
            None => {
                draws_remaining = 0;
            },
            Some(card_id) => {
                me.hand.add_card(card_id);
                let status = match registry.get(card_id) {
                    Some(def) => match def.card_type {
                        CardType::Status => true,
                        _ => false,
                    },
                    None => false,
                };
                if status {
                    draws_remaining = draws_remaining + evolve_bonus;
                    match fire_damage {
                        Some(damage) => {
                            deal_damage(
                                me,
                                foe,
                                log,
                                Side::Foe,
                                damage,
                                Some(Side::Me),
                                DamageKind::Power,
                            );
                        },
                        None => {},
                    }
                }
            },
        }
    }
}

/// Play the card in hand slot `hand_index` of `me`: it leaves the hand and
/// goes under the deck, or out of the rotation.  Returns the card for the
/// effect stage; `None`, and nothing changed, where the slot is empty.
pub fn handle_play_card(
    me: &mut PlayerBundle,
    foe: &mut PlayerBundle,
    log: &mut Vec<GameEvent>,
    hand_index: usize,
    registry: &CardRegistry,
) -> (outcome: Option<PlayOutcome>)
    ensures
        Table::of(*final(me), *final(foe), *final(log)) == Table::of(
            *old(me),
            *old(foe),
            *old(log),
        ).play_handled(hand_index, registry@),
        outcome == Table::of(*old(me), *old(foe), *old(log)).play_outcome(hand_index, registry@),
{
    match me.hand.remove_card(hand_index) {
        None => None,
        Some(card_id) => {
            let mut return_to_deck = true;
            let mut counts_as_exhaust = false;
            match registry.get(card_id) {
                Some(card_def) => {
                    match card_def.card_type {
                        CardType::Power => {
                            return_to_deck = false;
                        },
                        CardType::Skill => {
                            if me.powers.corruption.is_some() {
                                return_to_deck = false;
                                counts_as_exhaust = true;
                            }
                        },
                        _ => {},
                    }
                    match card_def.effect {
                        CardEffect::Exhaust => {
                            return_to_deck = false;
                            counts_as_exhaust = true;
                        },
                        _ => {},
                    }
                },
                None => {},
            }
            if return_to_deck {
                me.deck.cards.push(card_id);
                assert(me.deck@ == old(me).deck@.with_cards(seq![card_id])) by {
                    assert(old(me).deck@.cards.push(card_id) =~= old(me).deck@.cards + seq![
                        card_id,
                    ]);
                }
            } else {
                me.exhausted.push(card_id);
            }
            record(log, GameEvent::CardPlayed(CardPlayedMessage { player: me.handle, card_id }),
            );
            if counts_as_exhaust {
                record(log, GameEvent::CardExhausted(
                        CardExhaustedMessage { player: me.handle, card_id },
                    ),
                );
            }
            Some(PlayOutcome { card_id, exhausted: counts_as_exhaust })
        },
    }
}

} // verus!
