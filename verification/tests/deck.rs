use sensen::card::{CardId, CardRegistry};
use sensen::cards::setup_all_cards;
use sensen::deck::{
    copy_cards, handle_draw_cards, handle_play_card, Deck, DiscardPile, Hand, PlayOutcome,
    DEFAULT_DECK_SEED,
};
use sensen::event::{
    CardExhaustedMessage, CardPlayedMessage, DeckReshuffledMessage, DrawCardsMessage, GameEvent,
};
use sensen::health::{DamageKind, DamageMessage};
use sensen::player::{PlayerBundle, PlayerHandle};
use sensen::status::{CorruptionEffect, EvolveEffect, FireBreathingEffect};

fn ids(numbers: &[u32]) -> Vec<CardId> {
    numbers.iter().map(|n| CardId(*n)).collect()
}

fn registry() -> CardRegistry {
    let mut registry = CardRegistry::default();
    setup_all_cards(&mut registry);
    registry
}

fn player(handle: usize) -> PlayerBundle {
    PlayerBundle::with_health(0, handle, 1_000, Vec::new(), 100_000)
}

#[test]
fn generator_steps_as_a_linear_congruence() {
    let mut deck = Deck::new(Vec::new());
    assert_eq!(deck.rng_state, DEFAULT_DECK_SEED);
    assert_eq!(deck.next_rng(), 8266675502270331570);
    assert_eq!(deck.rng_state, 8266675502270331570);
    let mut zero = Deck::new_with_seed(Vec::new(), 0);
    assert_eq!(zero.next_rng(), 1);
    assert_eq!(zero.next_rng(), 6364136223846793006);
}

#[test]
fn generator_wraps_around() {
    let mut deck = Deck::new_with_seed(Vec::new(), u64::MAX);
    assert_eq!(deck.next_rng(), 12082607849862758612);
}

#[test]
fn seeds_of_many_players_are_distinct() {
    let mut seeds: Vec<u64> = (0..1_000).map(|handle| Deck::seed_for_handle(5, handle)).collect();
    seeds.sort();
    seeds.dedup();
    assert_eq!(seeds.len(), 1_000);
}

#[test]
fn seed_gather_undoes_seed_spread() {
    assert_eq!(sensen::deck::SEED_SPREAD.wrapping_mul(sensen::deck::SEED_GATHER), 1);
}

#[test]
fn seeds_differ_by_handle_and_match() {
    assert_eq!(Deck::seed_for_handle(0, 0), 2581482686307269653);
    assert_eq!(Deck::seed_for_handle(0, 0), DEFAULT_DECK_SEED);
    assert_eq!(Deck::seed_for_handle(0, 1), 13683129093608964096);
    assert_eq!(Deck::seed_for_handle(7, 1), 13683129093608964103);
    assert_eq!(Deck::seed_for_handle(7, 2), 2287186090336879672);
}

#[test]
fn shuffle_walks_down_from_the_last_card() {
    let mut deck = Deck::new(ids(&[1, 2, 3, 4, 5]));
    deck.shuffle();
    assert_eq!(deck.cards, ids(&[3, 2, 5, 4, 1]));
    assert_eq!(deck.rng_state, 5870997506792237425);
    let mut seeded = Deck::new_with_seed(ids(&[1, 2, 3, 4, 5]), 42);
    seeded.shuffle();
    assert_eq!(seeded.cards, ids(&[2, 5, 4, 1, 3]));
    assert_eq!(seeded.rng_state, 459824130525332694);
}

#[test]
fn shuffle_leaves_short_decks_alone() {
    let mut empty = Deck::new_with_seed(Vec::new(), 9);
    empty.shuffle();
    assert_eq!(empty, Deck::new_with_seed(Vec::new(), 9));
    let mut single = Deck::new_with_seed(ids(&[4]), 9);
    single.shuffle();
    assert_eq!(single, Deck::new_with_seed(ids(&[4]), 9));
}

#[test]
fn shuffle_keeps_the_cards() {
    let mut deck = Deck::new_with_seed(ids(&[5, 1, 5, 300, 2, 2, 2, 9]), 77);
    deck.shuffle();
    let mut cards: Vec<u32> = deck.cards.iter().map(|c| c.0).collect();
    cards.sort();
    assert_eq!(cards, vec![1, 2, 2, 2, 5, 5, 9, 300]);
}

#[test]
fn draw_takes_the_picked_card_and_moves_the_last_into_its_place() {
    let mut deck = Deck::new_with_seed(ids(&[10, 20, 30, 40]), 42);
    assert_eq!(deck.draw(), Some(CardId(40)));
    assert_eq!(deck.cards, ids(&[10, 20, 30]));
    assert_eq!(deck.rng_state, 9039304369631583587);
    assert_eq!(deck.draw(), Some(CardId(30)));
    assert_eq!(deck.draw(), Some(CardId(20)));
    assert_eq!(deck.draw(), Some(CardId(10)));
    assert_eq!(deck.rng_state, 459824130525332694);
    assert!(deck.is_empty());
}

#[test]
fn draw_from_an_empty_deck_gives_nothing_and_keeps_the_state() {
    let mut deck = Deck::new_with_seed(Vec::new(), 42);
    assert_eq!(deck.draw(), None);
    assert_eq!(deck.rng_state, 42);
    assert_eq!(deck.len(), 0);
}

#[test]
fn add_cards_puts_cards_behind() {
    let mut deck = Deck::new(ids(&[1, 2]));
    deck.add_cards(ids(&[3, 4]));
    assert_eq!(deck.cards, ids(&[1, 2, 3, 4]));
    assert_eq!(deck.len(), 4);
    assert!(!deck.is_empty());
    assert_eq!(deck.rng_state, DEFAULT_DECK_SEED);
}

#[test]
fn default_deck_is_empty_with_the_default_seed() {
    let deck = Deck::default();
    assert!(deck.is_empty());
    assert_eq!(deck.rng_state, 0x23d3_44d3_6f2a_7c15);
}

#[test]
fn hand_adds_and_removes() {
    let mut hand = Hand::default();
    assert!(hand.is_empty());
    hand.add_card(CardId(1));
    hand.add_card(CardId(2));
    hand.add_card(CardId(3));
    assert_eq!(hand.len(), 3);
    assert_eq!(hand.get(1), Some(CardId(2)));
    assert_eq!(hand.get(3), None);
    assert_eq!(hand.remove_card(0), Some(CardId(1)));
    assert_eq!(hand.cards, ids(&[2, 3]));
    assert_eq!(hand.remove_card(2), None);
    assert_eq!(hand.cards, ids(&[2, 3]));
}

#[test]
fn discard_pile_is_taken_whole() {
    let mut pile = DiscardPile::default();
    assert!(pile.is_empty());
    pile.add_card(CardId(7));
    pile.add_card(CardId(8));
    assert_eq!(pile.len(), 2);
    assert_eq!(pile.take_all(), ids(&[7, 8]));
    assert!(pile.is_empty());
    assert_eq!(pile.take_all(), Vec::new());
}

#[test]
fn copy_cards_copies() {
    assert_eq!(copy_cards(&ids(&[3, 1, 2])), ids(&[3, 1, 2]));
    assert_eq!(copy_cards(&Vec::new()), Vec::new());
}

#[test]
fn draw_under_empty_deck_recycles_the_discard_pile() {
    let registry = registry();
    let mut me = player(0);
    let mut foe = player(1);
    let mut log = Vec::new();
    me.deck = Deck::new(Vec::new());
    me.discard_pile.cards = ids(&[301, 1, 100]);
    handle_draw_cards(&mut me, &mut foe, &mut log, 3, &registry);
    assert_eq!(me.hand.cards, ids(&[100, 1, 301]));
    assert!(me.deck.is_empty());
    assert!(me.discard_pile.is_empty());
    assert_eq!(me.deck.rng_state, 13927146535164925918);
    assert_eq!(
        log,
        vec![
            GameEvent::DrawCards(DrawCardsMessage { player: PlayerHandle(0), count: 3 }),
            GameEvent::DeckReshuffled(DeckReshuffledMessage {
                player: PlayerHandle(0),
                deck: ids(&[100, 1, 301]),
            }),
        ]
    );
    assert_eq!(foe, player(1));
}

#[test]
fn draw_stops_when_nothing_is_left() {
    let registry = registry();
    let mut me = player(0);
    let mut foe = player(1);
    let mut log = Vec::new();
    me.deck = Deck::new_with_seed(ids(&[1, 2]), 3);
    handle_draw_cards(&mut me, &mut foe, &mut log, 5, &registry);
    assert_eq!(me.hand.len(), 2);
    assert!(me.deck.is_empty());
    assert_eq!(log.len(), 1);
    let before = me.clone();
    handle_draw_cards(&mut me, &mut foe, &mut log, 5, &registry);
    assert_eq!(me, before);
    assert_eq!(log.len(), 2);
}

#[test]
fn draw_stops_at_a_full_hand() {
    let registry = registry();
    let mut me = player(0);
    let mut foe = player(1);
    let mut log = Vec::new();
    me.deck = Deck::new(ids(&[1, 2, 3, 4, 5, 6]));
    me.hand.cards = ids(&[1, 1, 1, 1, 1, 1, 1, 1]);
    handle_draw_cards(&mut me, &mut foe, &mut log, 5, &registry);
    assert_eq!(me.hand.len(), 10);
    assert_eq!(me.deck.len(), 4);
    handle_draw_cards(&mut me, &mut foe, &mut log, 1, &registry);
    assert_eq!(me.hand.len(), 10);
    assert_eq!(me.deck.len(), 4);
}

#[test]
fn draw_of_nothing_only_logs_the_request() {
    let registry = registry();
    let mut me = player(0);
    let mut foe = player(1);
    let mut log = Vec::new();
    me.deck = Deck::new(ids(&[1, 2, 3]));
    let before = me.clone();
    handle_draw_cards(&mut me, &mut foe, &mut log, 0, &registry);
    assert_eq!(me, before);
    assert_eq!(
        log,
        vec![GameEvent::DrawCards(DrawCardsMessage { player: PlayerHandle(0), count: 0 })]
    );
}

#[test]
fn evolve_draws_more_for_each_status_card() {
    let registry = registry();
    let mut me = player(0);
    let mut foe = player(1);
    let mut log = Vec::new();
    me.deck = Deck::new(ids(&[301, 301, 301, 301]));
    me.powers.evolve = Some(EvolveEffect::new(1));
    handle_draw_cards(&mut me, &mut foe, &mut log, 1, &registry);
    assert_eq!(me.hand.cards, ids(&[301, 301, 301, 301]));
    assert!(me.deck.is_empty());
}

#[test]
fn evolve_is_bounded_by_the_hand() {
    let registry = registry();
    let mut me = player(0);
    let mut foe = player(1);
    let mut log = Vec::new();
    me.deck = Deck::new(ids(&[300; 30]));
    me.powers.evolve = Some(EvolveEffect::new(u32::MAX));
    handle_draw_cards(&mut me, &mut foe, &mut log, usize::MAX, &registry);
    assert_eq!(me.hand.len(), 10);
    assert_eq!(me.deck.len(), 20);
}

#[test]
fn fire_breathing_burns_the_opponent_for_each_status_card() {
    let registry = registry();
    let mut me = player(0);
    let mut foe = player(1);
    let mut log = Vec::new();
    me.deck = Deck::new(ids(&[302, 302]));
    me.powers.fire_breathing = Some(FireBreathingEffect::new(60_000));
    foe.block.current = 70_000;
    foe.thorns.damage = 5_000;
    handle_draw_cards(&mut me, &mut foe, &mut log, 2, &registry);
    assert_eq!(foe.block.current, 0);
    assert_eq!(foe.health.current, 50_000);
    assert_eq!(me.health.current, 100_000);
    let burn = GameEvent::Damage(DamageMessage {
        target: PlayerHandle(1),
        amount: 60_000,
        source: Some(PlayerHandle(0)),
        kind: DamageKind::Power,
    });
    assert_eq!(
        log,
        vec![
            GameEvent::DrawCards(DrawCardsMessage { player: PlayerHandle(0), count: 2 }),
            burn.clone(),
            burn,
        ]
    );
}

#[test]
fn fire_breathing_spares_the_opponent_for_other_cards() {
    let registry = registry();
    let mut me = player(0);
    let mut foe = player(1);
    let mut log = Vec::new();
    me.deck = Deck::new(ids(&[1, 100, 200, 9999]));
    me.powers.fire_breathing = Some(FireBreathingEffect::new(60_000));
    me.powers.evolve = Some(EvolveEffect::new(3));
    handle_draw_cards(&mut me, &mut foe, &mut log, 2, &registry);
    assert_eq!(me.hand.len(), 2);
    assert_eq!(foe, player(1));
}

#[test]
fn played_attack_goes_under_the_deck() {
    let registry = registry();
    let mut me = player(0);
    let mut foe = player(1);
    let mut log = Vec::new();
    me.deck = Deck::new(ids(&[5, 6]));
    me.hand.cards = ids(&[1, 2, 3]);
    let outcome = handle_play_card(&mut me, &mut foe, &mut log, 1, &registry);
    assert_eq!(outcome, Some(PlayOutcome { card_id: CardId(2), exhausted: false }));
    assert_eq!(me.hand.cards, ids(&[1, 3]));
    assert_eq!(me.deck.cards, ids(&[5, 6, 2]));
    assert!(me.exhausted.is_empty());
    assert_eq!(
        log,
        vec![GameEvent::CardPlayed(CardPlayedMessage {
            player: PlayerHandle(0),
            card_id: CardId(2)
        })]
    );
}

#[test]
fn played_power_leaves_the_rotation_without_being_exhausted() {
    let registry = registry();
    let mut me = player(0);
    let mut foe = player(1);
    let mut log = Vec::new();
    me.hand.cards = ids(&[206]);
    let outcome = handle_play_card(&mut me, &mut foe, &mut log, 0, &registry);
    assert_eq!(outcome, Some(PlayOutcome { card_id: CardId(206), exhausted: false }));
    assert!(me.hand.is_empty());
    assert!(me.deck.is_empty());
    assert_eq!(me.exhausted, ids(&[206]));
    assert_eq!(me.exhausted_count(), 1);
    assert_eq!(log.len(), 1);
}

#[test]
fn played_exhaust_card_is_exhausted() {
    let registry = registry();
    let mut me = player(0);
    let mut foe = player(1);
    let mut log = Vec::new();
    me.hand.cards = ids(&[1, 303]);
    let outcome = handle_play_card(&mut me, &mut foe, &mut log, 1, &registry);
    assert_eq!(outcome, Some(PlayOutcome { card_id: CardId(303), exhausted: true }));
    assert_eq!(me.exhausted, ids(&[303]));
    assert_eq!(
        log,
        vec![
            GameEvent::CardPlayed(CardPlayedMessage {
                player: PlayerHandle(0),
                card_id: CardId(303)
            }),
            GameEvent::CardExhausted(CardExhaustedMessage {
                player: PlayerHandle(0),
                card_id: CardId(303)
            }),
        ]
    );
}

#[test]
fn corruption_exhausts_skills_only() {
    let registry = registry();
    let mut me = player(0);
    let mut foe = player(1);
    let mut log = Vec::new();
    me.powers.corruption = Some(CorruptionEffect);
    me.hand.cards = ids(&[100, 1]);
    let skill = handle_play_card(&mut me, &mut foe, &mut log, 0, &registry);
    assert_eq!(skill, Some(PlayOutcome { card_id: CardId(100), exhausted: true }));
    let attack = handle_play_card(&mut me, &mut foe, &mut log, 0, &registry);
    assert_eq!(attack, Some(PlayOutcome { card_id: CardId(1), exhausted: false }));
    assert_eq!(me.exhausted, ids(&[100]));
    assert_eq!(me.deck.cards, ids(&[1]));
}

#[test]
fn play_from_an_empty_slot_does_nothing() {
    let registry = registry();
    let mut me = player(0);
    let mut foe = player(1);
    let mut log = Vec::new();
    me.hand.cards = ids(&[1]);
    let before = me.clone();
    assert_eq!(handle_play_card(&mut me, &mut foe, &mut log, 1, &registry), None);
    assert_eq!(handle_play_card(&mut me, &mut foe, &mut log, usize::MAX, &registry), None);
    assert_eq!(me, before);
    assert!(log.is_empty());
}

#[test]
fn unknown_card_goes_under_the_deck() {
    let registry = registry();
    let mut me = player(0);
    let mut foe = player(1);
    let mut log = Vec::new();
    me.hand.cards = ids(&[9999]);
    let outcome = handle_play_card(&mut me, &mut foe, &mut log, 0, &registry);
    assert_eq!(outcome, Some(PlayOutcome { card_id: CardId(9999), exhausted: false }));
    assert_eq!(me.deck.cards, ids(&[9999]));
}

#[test]
fn reshuffle_event_carries_the_deck_as_the_shuffle_left_it() {
    let registry = registry();
    let mut me = player(0);
    let mut foe = player(1);
    let mut log = Vec::new();
    me.deck = Deck::new_with_seed(Vec::new(), 5);
    me.discard_pile.cards = ids(&[301, 1, 100]);
    handle_draw_cards(&mut me, &mut foe, &mut log, 1, &registry);
    assert_eq!(
        log[1],
        GameEvent::DeckReshuffled(DeckReshuffledMessage {
            player: PlayerHandle(0),
            deck: ids(&[100, 1, 301]),
        })
    );
    assert_eq!(me.hand.cards, ids(&[1]));
    assert_eq!(me.deck.len(), 2);
}
