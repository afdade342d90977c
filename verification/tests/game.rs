use sensen::card::{CardId, CardRegistry};
use sensen::cards::setup_all_cards;
use sensen::event::{
    CardPlayedMessage, DrawCardsMessage, GameEvent, PlayCardMessage,
};
use sensen::game::{
    check_death, is_offline, is_online, tick_clock, Combat, Frame, GameMode, MatchSeed,
};
use sensen::health::{DamageKind, DamageMessage, DeathMessage, GameResult, Health};
use sensen::input::{GameInput, INPUT_CARD_1, INPUT_CARD_2, INPUT_CARD_3, INPUT_DRAW};
use sensen::input_buffer::{
    apply_local_input_flags, apply_pending_inputs, PendingInput, Requests,
};
use sensen::player::{create_test_deck, PlayerBundle, PlayerHandle};
use sensen::status::CorruptionEffect;

fn ids(numbers: &[u32]) -> Vec<CardId> {
    numbers.iter().map(|n| CardId(*n)).collect()
}

fn registry() -> CardRegistry {
    let mut registry = CardRegistry::default();
    setup_all_cards(&mut registry);
    registry
}

fn frame(delta: u32, first: u16, second: u16) -> Frame {
    Frame { delta, first: GameInput { flags: first }, second: GameInput { flags: second } }
}

fn big_deck() -> Vec<CardId> {
    ids(&[
        1, 2, 9, 12, 13, 15, 16, 19, 26, 100, 104, 108, 111, 112, 116, 117, 119, 121, 126, 127,
        200, 201, 202, 203, 204, 206, 208, 210, 211, 212, 213, 303, 301, 302,
    ])
}

fn random_frames(count: usize, seed: u64) -> Vec<Frame> {
    let mut state = seed;
    let mut out = Vec::new();
    for _ in 0..count {
        state = state.wrapping_mul(6364136223846793005).wrapping_add(1442695040888963407);
        let first = ((state >> 20) & 0x07FF) as u16;
        let second = ((state >> 40) & 0x07FF) as u16;
        let delta = 1 + ((state >> 52) & 0x3FF) as u32;
        out.push(frame(delta, first, second));
    }
    out
}

fn long_match(seed: u64) -> Combat {
    let mut combat = Combat::new(MatchSeed(seed), 5_000, big_deck(), big_deck());
    combat.first.health = Health::new(i64::MAX);
    combat.second.health = Health::new(i64::MAX);
    combat
}

fn card_count(player: &PlayerBundle) -> usize {
    player.deck.len() + player.hand.len() + player.discard_pile.len() + player.exhausted_count()
}

fn all_cards(player: &PlayerBundle) -> Vec<u32> {
    let mut cards: Vec<u32> = player
        .deck
        .cards
        .iter()
        .chain(&player.hand.cards)
        .chain(&player.discard_pile.cards)
        .chain(&player.exhausted)
        .map(|card| card.0)
        .collect();
    cards.sort();
    cards
}

fn added(log: &[GameEvent], handle: usize) -> usize {
    log.iter()
        .filter(|event| match event {
            GameEvent::AddStatusCard(msg) => msg.player == PlayerHandle(handle),
            _ => false,
        })
        .count()
}

#[test]
fn modes() {
    assert_eq!(GameMode::default(), GameMode::Offline);
    assert!(is_offline(&GameMode::Offline));
    assert!(!is_online(&GameMode::Offline));
    assert!(is_online(&GameMode::Online));
    assert!(!is_offline(&GameMode::Online));
}

#[test]
fn match_seed_from_the_clock() {
    assert_eq!(MatchSeed::from_clock(0), MatchSeed(0x9e37_79b9_7f4a_7c15));
    assert_eq!(MatchSeed::from_clock(0x9e37_79b9_7f4a_7c15), MatchSeed(0));
    assert_eq!(MatchSeed::from_clock(1), MatchSeed(0x9e37_79b9_7f4a_7c14));
}

#[test]
fn a_new_match_shuffles_each_deck_with_its_own_seed() {
    let combat = Combat::new(MatchSeed(7), 1_000, create_test_deck(), create_test_deck());
    assert_eq!(combat.first.handle, PlayerHandle(0));
    assert_eq!(combat.second.handle, PlayerHandle(1));
    assert_eq!(combat.first.deck.cards, ids(&[1, 5, 7, 9, 3, 5, 2, 10, 8, 1, 4, 6]));
    assert_eq!(combat.first.deck.rng_state, 6908780383010506313);
    assert_eq!(combat.second.deck.cards, ids(&[1, 5, 3, 8, 6, 5, 10, 1, 2, 4, 9, 7]));
    assert_eq!(combat.second.deck.rng_state, 620742390083935202);
    assert_eq!(combat.first.health.current, 1_000_000);
    assert_eq!(combat.first.health.max, 1_000_000);
    assert_eq!(combat.first.clock.cost.current, 0);
    assert_eq!(combat.first.clock.cost.rate, 1_000);
    assert!(combat.first.hand.is_empty());
    assert!(!combat.is_over());
    assert_eq!(combat.handle_game_over(PlayerHandle(0)), GameResult::Playing);
}

#[test]
fn a_new_player_is_fresh() {
    let player = PlayerBundle::new(7, 1, 2_500, create_test_deck());
    assert_eq!(player.handle, PlayerHandle(1));
    assert_eq!(player.health.current, 1_000_000);
    assert_eq!(player.clock.cost.rate, 2_500);
    assert_eq!(player.clock.acceleration, None);
    assert_eq!(player.block.current, 0);
    assert_eq!(player.thorns.damage, 0);
    assert_eq!(player.strength.amount, 0);
    assert_eq!(player.deck.cards, ids(&[1, 5, 3, 8, 6, 5, 10, 1, 2, 4, 9, 7]));
    assert_eq!(player.exhausted_count(), 0);
    let weak = PlayerBundle::with_health(7, 1, 2_500, create_test_deck(), 100_000);
    assert_eq!(weak.health.current, 100_000);
    assert_eq!(weak.deck, player.deck);
    assert_eq!(player.snapshot(), player);
}

#[test]
fn a_tick_runs_the_stages_in_order() {
    let registry = registry();
    let mut combat = Combat::new(MatchSeed(7), 1_000, create_test_deck(), create_test_deck());
    let log = combat.tick(&frame(2_000, INPUT_DRAW, 0), &registry);
    assert_eq!(
        log,
        vec![GameEvent::DrawCards(DrawCardsMessage { player: PlayerHandle(0), count: 3 })]
    );
    assert_eq!(combat.first.clock.cost.current, 0);
    assert_eq!(combat.second.clock.cost.current, 2_000);
    assert_eq!(combat.first.hand.cards, ids(&[4, 3, 1]));
    assert_eq!(combat.first.deck.cards, ids(&[1, 5, 7, 9, 6, 5, 2, 10, 8]));
    assert_eq!(combat.first.deck.rng_state, 9445805194658175220);

    let log = combat.tick(&frame(1_000, INPUT_CARD_1 | INPUT_CARD_3, INPUT_DRAW), &registry);
    assert_eq!(
        log,
        vec![
            GameEvent::PlayCard(PlayCardMessage { player: PlayerHandle(0), hand_index: 0 }),
            GameEvent::CardPlayed(CardPlayedMessage {
                player: PlayerHandle(0),
                card_id: CardId(4)
            }),
            GameEvent::DrawCards(DrawCardsMessage { player: PlayerHandle(1), count: 3 }),
            GameEvent::Damage(DamageMessage {
                target: PlayerHandle(1),
                amount: 80_000,
                source: Some(PlayerHandle(0)),
                kind: DamageKind::Attack,
            }),
        ]
    );
    assert_eq!(combat.first.clock.cost.current, 0);
    assert_eq!(combat.first.hand.cards, ids(&[3, 1]));
    assert_eq!(combat.first.deck.cards, ids(&[1, 5, 7, 9, 6, 5, 2, 10, 8, 4]));
    assert_eq!(combat.second.clock.cost.current, 1_000);
    assert_eq!(combat.second.hand.cards, ids(&[7, 1, 8]));
    assert_eq!(combat.second.deck.cards, ids(&[1, 5, 3, 4, 6, 5, 10, 9, 2]));
    assert_eq!(combat.second.health.current, 920_000);
    assert_eq!(combat.first.health.current, 1_000_000);
}

#[test]
fn two_play_bits_play_one_card() {
    let registry = registry();
    let mut me = PlayerBundle::with_health(0, 0, 1_000, Vec::new(), 100_000);
    me.hand.cards = ids(&[1, 4, 6]);
    me.clock.cost.current = 10_000;
    let mut log = Vec::new();
    let requests =
        apply_local_input_flags(INPUT_CARD_2 | INPUT_CARD_3, &mut me, &mut log, &registry);
    let play = PlayCardMessage { player: PlayerHandle(0), hand_index: 1 };
    assert_eq!(requests, Requests { draw: None, play: Some(play) });
    assert_eq!(log, vec![GameEvent::PlayCard(play)]);
    assert_eq!(me.clock.cost.current, 9_000);
    assert_eq!(me.hand.cards, ids(&[1, 4, 6]));
}

#[test]
fn only_the_lowest_slot_is_looked_at() {
    let registry = registry();
    let mut me = PlayerBundle::with_health(0, 0, 1_000, Vec::new(), 100_000);
    me.hand.cards = ids(&[23, 1]);
    me.clock.cost.current = 2_999;
    let mut log = Vec::new();
    let requests =
        apply_local_input_flags(INPUT_CARD_1 | INPUT_CARD_2, &mut me, &mut log, &registry);
    assert_eq!(requests, Requests { draw: None, play: None });
    assert!(log.is_empty());
    assert_eq!(me.clock.cost.current, 2_999);
    let empty_slot = apply_local_input_flags(INPUT_CARD_3, &mut me, &mut log, &registry);
    assert_eq!(empty_slot, Requests { draw: None, play: None });
    me.hand.cards = ids(&[9_999, 1]);
    let unknown = apply_local_input_flags(INPUT_CARD_1, &mut me, &mut log, &registry);
    assert_eq!(unknown, Requests { draw: None, play: None });
    assert_eq!(me.clock.cost.current, 2_999);
}

#[test]
fn draw_is_paid_before_the_play() {
    let registry = registry();
    let mut me = PlayerBundle::with_health(0, 0, 1_000, Vec::new(), 100_000);
    me.hand.cards = ids(&[1]);
    me.clock.cost.current = 2_500;
    let mut log = Vec::new();
    let requests = apply_local_input_flags(INPUT_DRAW | INPUT_CARD_1, &mut me, &mut log, &registry);
    assert_eq!(
        requests,
        Requests {
            draw: Some(DrawCardsMessage { player: PlayerHandle(0), count: 3 }),
            play: None
        }
    );
    assert_eq!(me.clock.cost.current, 500);
    me.clock.cost.current = 1_999;
    let poor = apply_local_input_flags(INPUT_DRAW | INPUT_CARD_1, &mut me, &mut log, &registry);
    assert_eq!(
        poor,
        Requests {
            draw: None,
            play: Some(PlayCardMessage { player: PlayerHandle(0), hand_index: 0 })
        }
    );
    assert_eq!(me.clock.cost.current, 999);
}

#[test]
fn corruption_makes_skills_free() {
    let registry = registry();
    let mut me = PlayerBundle::with_health(0, 0, 1_000, Vec::new(), 100_000);
    me.hand.cards = ids(&[125, 1]);
    me.powers.corruption = Some(CorruptionEffect);
    let mut log = Vec::new();
    let skill = apply_local_input_flags(INPUT_CARD_1, &mut me, &mut log, &registry);
    assert_eq!(skill.play, Some(PlayCardMessage { player: PlayerHandle(0), hand_index: 0 }));
    assert_eq!(me.clock.cost.current, 0);
    let attack = apply_local_input_flags(INPUT_CARD_2, &mut me, &mut log, &registry);
    assert_eq!(attack.play, None);
}

#[test]
fn the_clock_ticks_acceleration_before_cost() {
    let mut me = PlayerBundle::with_health(0, 0, 1_000, Vec::new(), 100_000);
    me.clock.accelerate(500, 4_000);
    tick_clock(3_999, &mut me);
    assert_eq!(me.clock.cost.current, 5_998);
    tick_clock(1, &mut me);
    assert_eq!(me.clock.cost.rate, 1_000);
    assert_eq!(me.clock.cost.current, 5_999);
    assert_eq!(me.clock.acceleration, None);
}

#[test]
fn death_ends_the_match() {
    let registry = registry();
    let mut combat = Combat::new(MatchSeed(7), 1_000, create_test_deck(), create_test_deck());
    combat.tick(&frame(2_000, INPUT_DRAW, 0), &registry);
    combat.second.health.current = 80_000;
    let log = combat.tick(&frame(1_000, INPUT_CARD_1, 0), &registry);
    assert_eq!(log.last(), Some(&GameEvent::Death(DeathMessage { entity: PlayerHandle(1) })));
    assert_eq!(combat.second.health.current, 0);
    assert!(combat.is_over());
    assert_eq!(combat.handle_game_over(PlayerHandle(0)), GameResult::Victory);
    assert_eq!(combat.handle_game_over(PlayerHandle(1)), GameResult::Defeat);
    let ended = combat.clone();
    let log = combat.tick(&frame(1_000, INPUT_DRAW | INPUT_CARD_1, INPUT_DRAW), &registry);
    assert!(log.is_empty());
    assert_eq!(combat, ended);
}

#[test]
fn both_dead_is_a_defeat_for_both() {
    let mut combat = Combat::new(MatchSeed(7), 1_000, Vec::new(), Vec::new());
    combat.first.health.current = 0;
    combat.second.health.current = 0;
    assert_eq!(combat.handle_game_over(PlayerHandle(0)), GameResult::Defeat);
    assert_eq!(combat.handle_game_over(PlayerHandle(1)), GameResult::Defeat);
}

#[test]
fn check_death_logs_the_dead() {
    let mut player = PlayerBundle::with_health(0, 3, 1_000, Vec::new(), 100_000);
    let mut log = Vec::new();
    check_death(&player, &mut log);
    assert!(log.is_empty());
    player.health.current = 0;
    check_death(&player, &mut log);
    assert_eq!(log, vec![GameEvent::Death(DeathMessage { entity: PlayerHandle(3) })]);
}

#[test]
fn two_runs_of_the_same_inputs_agree() {
    let registry = registry();
    let frames = random_frames(600, 11);
    let mut one = long_match(99);
    let mut other = long_match(99);
    let mut one_log = Vec::new();
    for frame in &frames {
        one_log.extend(one.tick(frame, &registry));
    }
    let other_log = other.replay(&frames, &registry);
    assert_eq!(one, other);
    assert_eq!(one_log, other_log);
    assert!(one_log.len() > 100);
    assert!(!one.is_over());
}

#[test]
fn another_seed_gives_another_match() {
    let one = Combat::new(MatchSeed(99), 5_000, big_deck(), big_deck());
    let other = Combat::new(MatchSeed(100), 5_000, big_deck(), big_deck());
    assert_ne!(one.first.deck, other.first.deck);
    assert_ne!(one.first.deck.cards, one.second.deck.cards);
    assert_ne!(one.first.deck.rng_state, one.second.deck.rng_state);
}

#[test]
fn a_rollback_ends_where_the_first_run_did() {
    let registry = registry();
    let frames = random_frames(400, 5);
    let mut combat = long_match(3);
    combat.replay(&frames[..150].to_vec(), &registry);
    let saved = combat.snapshot();
    assert_eq!(saved, combat);
    let mispredicted = random_frames(250, 77);
    combat.replay(&mispredicted, &registry);
    assert_ne!(combat, saved);
    combat = saved;
    let log = combat.replay(&frames[150..].to_vec(), &registry);
    let mut straight = long_match(3);
    let straight_log = straight.replay(&frames, &registry);
    assert!(!straight.is_over());
    assert_eq!(combat, straight);
    assert!(straight_log.ends_with(&log));
}

#[test]
fn cards_are_conserved_over_a_long_match() {
    let registry = registry();
    let mut combat = long_match(21);
    let start = (card_count(&combat.first), card_count(&combat.second));
    assert_eq!(start, (34, 34));
    let mut owned = (all_cards(&combat.first), all_cards(&combat.second));
    let mut total = (0, 0);
    let mut plays = 0;
    for frame in random_frames(3_000, 1) {
        let before = (card_count(&combat.first), card_count(&combat.second));
        let log = combat.tick(&frame, &registry);
        let grown = (added(&log, 0), added(&log, 1));
        assert_eq!(card_count(&combat.first), before.0 + grown.0);
        assert_eq!(card_count(&combat.second), before.1 + grown.1);
        for (player, owned) in [(&combat.first, &mut owned.0), (&combat.second, &mut owned.1)] {
            for event in &log {
                if let GameEvent::AddStatusCard(msg) = event {
                    if msg.player == player.handle {
                        owned.push(msg.card_id.0);
                    }
                }
            }
            owned.sort();
            assert_eq!(all_cards(player), *owned);
        }
        for player in [&combat.first, &combat.second] {
            assert!(player.hand.len() <= 10);
            assert!(0 <= player.health.current && player.health.current <= player.health.max);
            assert!(player.block.current >= 0);
            assert!(player.thorns.damage >= 0);
            assert!(player.vulnerable.duration >= 0);
            assert!(player.weak.duration >= 0);
        }
        let played = log.iter().filter(|e| matches!(e, GameEvent::PlayCard(_))).count();
        assert!(played <= 2);
        plays += played;
        total = (total.0 + grown.0, total.1 + grown.1);
    }
    assert_eq!(card_count(&combat.first), 34 + total.0);
    assert_eq!(card_count(&combat.second), 34 + total.1);
    assert!(plays > 100);
    assert!(total.0 + total.1 > 0);
}

#[test]
fn replay_of_no_frames_changes_nothing() {
    let registry = registry();
    let mut combat = Combat::new(MatchSeed(3), 5_000, big_deck(), big_deck());
    let before = combat.clone();
    assert!(combat.replay(&Vec::new(), &registry).is_empty());
    assert_eq!(combat, before);
}

#[test]
fn pending_inputs_are_applied_once() {
    let registry = registry();
    let mut me = PlayerBundle::with_health(0, 0, 1_000, Vec::new(), 100_000);
    me.hand.cards = ids(&[1]);
    me.clock.cost.current = 5_000;
    let mut log = Vec::new();
    let mut pending = PendingInput::default();
    let idle = apply_pending_inputs(&mut pending, &mut me, &mut log, &registry);
    assert_eq!(idle, Requests { draw: None, play: None });
    assert_eq!(me.clock.cost.current, 5_000);
    pending.push_flags(INPUT_DRAW);
    pending.push_flags(INPUT_CARD_1);
    let requests = apply_pending_inputs(&mut pending, &mut me, &mut log, &registry);
    assert_eq!(
        requests,
        Requests {
            draw: Some(DrawCardsMessage { player: PlayerHandle(0), count: 3 }),
            play: Some(PlayCardMessage { player: PlayerHandle(0), hand_index: 0 }),
        }
    );
    assert_eq!(me.clock.cost.current, 2_000);
    assert_eq!(pending.flags, 0);
    let again = apply_pending_inputs(&mut pending, &mut me, &mut log, &registry);
    assert_eq!(again, Requests { draw: None, play: None });
    assert_eq!(log.len(), 1);
}

#[test]
fn opening_hands_are_dealt_first_player_first() {
    let registry = registry();
    let mut combat = Combat::new(MatchSeed(7), 1_000, create_test_deck(), create_test_deck());
    let log = combat.deal(&registry);
    assert_eq!(
        log,
        vec![
            GameEvent::DrawCards(DrawCardsMessage { player: PlayerHandle(0), count: 5 }),
            GameEvent::DrawCards(DrawCardsMessage { player: PlayerHandle(1), count: 5 }),
        ]
    );
    assert_eq!(combat.first.hand.len(), 5);
    assert_eq!(combat.second.hand.len(), 5);
    assert_eq!(combat.first.deck.len(), 7);
    assert_eq!(&combat.first.hand.cards[..3], &ids(&[4, 3, 1])[..]);
    assert_eq!(&combat.second.hand.cards[..3], &ids(&[7, 1, 8])[..]);
    assert_eq!(combat.first.clock.cost.current, 0);
}
