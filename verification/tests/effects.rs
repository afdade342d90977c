use sensen::card::{CardEffect, CardId, CardRegistry};
use sensen::cards::{combo2, combo3, setup_all_cards};
use sensen::cost::Acceleration;
use sensen::deck::{Deck, PlayOutcome};
use sensen::effect::{
    add_status_card, apply_card_effect, apply_card_effects, apply_strength, apply_vulnerable,
    apply_weak,
};
use sensen::event::{
    AddStatusCardMessage, ApplyStrengthMessage, ApplyVulnerableMessage, ApplyWeakMessage,
    DrawCardsMessage, GameEvent,
};
use sensen::health::{DamageKind, DamageMessage, GainBlockMessage, HealMessage};
use sensen::player::{PlayerBundle, PlayerHandle, Side};
use sensen::status::{
    BarricadeEffect, BrutalityEffect, CombustEffect, CorruptionEffect, DarkEmbraceEffect,
    DemonFormEffect, EvolveEffect, FeelNoPainEffect, FireBreathingEffect, JuggernautEffect,
    MetallicizeEffect, Powers, RageEffect, RuptureEffect,
};

fn registry() -> CardRegistry {
    let mut registry = CardRegistry::default();
    setup_all_cards(&mut registry);
    registry
}

fn player(handle: usize) -> PlayerBundle {
    PlayerBundle::with_health(0, handle, 1_000, Vec::new(), 100_000)
}

fn play(effect: CardEffect, me: &mut PlayerBundle, foe: &mut PlayerBundle) -> Vec<GameEvent> {
    let mut log = Vec::new();
    apply_card_effect(&effect, me, foe, &mut log, &registry());
    log
}

fn attack(amount: i64) -> GameEvent {
    GameEvent::Damage(DamageMessage {
        target: PlayerHandle(1),
        amount,
        source: Some(PlayerHandle(0)),
        kind: DamageKind::Attack,
    })
}

#[test]
fn damage_hits_the_opponent() {
    let mut me = player(0);
    let mut foe = player(1);
    let log = play(CardEffect::Damage(60_000), &mut me, &mut foe);
    assert_eq!(foe.health.current, 40_000);
    assert_eq!(me, player(0));
    assert_eq!(log, vec![attack(60_000)]);
}

#[test]
fn damage_uses_strength_weak_and_vulnerable() {
    let mut me = player(0);
    let mut foe = player(1);
    me.strength.amount = 2_000;
    me.weak.duration = 1_000;
    foe.vulnerable.duration = 1_000;
    let log = play(CardEffect::Damage(20_000), &mut me, &mut foe);
    assert_eq!(log, vec![attack(45_000)]);
    assert_eq!(foe.health.current, 55_000);
}

#[test]
fn own_vulnerability_and_foes_weakness_do_not_count() {
    let mut me = player(0);
    let mut foe = player(1);
    me.vulnerable.duration = 1_000;
    foe.weak.duration = 1_000;
    foe.strength.amount = 5_000;
    let log = play(CardEffect::Damage(20_000), &mut me, &mut foe);
    assert_eq!(log, vec![attack(20_000)]);
}

#[test]
fn multi_hit_deals_the_same_damage_each_time() {
    let mut me = player(0);
    let mut foe = player(1);
    foe.block.current = 40_000;
    let log = play(CardEffect::MultiHit { damage: 30_000, hits: 3 }, &mut me, &mut foe);
    assert_eq!(log, vec![attack(30_000), attack(30_000), attack(30_000)]);
    assert_eq!(foe.block.current, 0);
    assert_eq!(foe.health.current, 50_000);
}

#[test]
fn multi_hit_of_no_hits_does_nothing() {
    let mut me = player(0);
    let mut foe = player(1);
    let log = play(CardEffect::MultiHit { damage: 30_000, hits: 0 }, &mut me, &mut foe);
    assert!(log.is_empty());
    assert_eq!(foe, player(1));
}

#[test]
fn each_hit_is_answered_by_thorns() {
    let mut me = player(0);
    let mut foe = player(1);
    foe.thorns.damage = 4_000;
    let log = play(CardEffect::MultiHit { damage: 20_000, hits: 4 }, &mut me, &mut foe);
    assert_eq!(log.len(), 12);
    assert_eq!(me.health.current, 84_000);
    assert_eq!(foe.health.current, 20_000);
}

#[test]
fn heal_block_and_thorns_are_for_the_player() {
    let mut me = player(0);
    let mut foe = player(1);
    me.health.current = 50_000;
    let log = play(
        combo3(CardEffect::Heal(30_000), CardEffect::Block(50_000), CardEffect::Thorns(4_000)),
        &mut me,
        &mut foe,
    );
    assert_eq!(me.health.current, 80_000);
    assert_eq!(me.block.current, 50_000);
    assert_eq!(me.thorns.damage, 4_000);
    assert_eq!(foe, player(1));
    assert_eq!(log.len(), 3);
    assert_eq!(log[0], GameEvent::Heal(HealMessage { target: PlayerHandle(0), amount: 30_000 }));
    assert_eq!(
        log[1],
        GameEvent::GainBlock(GainBlockMessage { target: PlayerHandle(0), amount: 50_000 })
    );
}

#[test]
fn statuses_go_to_the_right_player() {
    let mut me = player(0);
    let mut foe = player(1);
    let log = play(
        CardEffect::Combo(vec![
            CardEffect::Strength(2_000),
            CardEffect::Vulnerable(2_000),
            CardEffect::SelfVulnerable(1_500),
            CardEffect::Weak(3_000),
        ]),
        &mut me,
        &mut foe,
    );
    assert_eq!(me.strength.amount, 2_000);
    assert_eq!(foe.vulnerable.duration, 2_000);
    assert_eq!(me.vulnerable.duration, 1_500);
    assert_eq!(foe.weak.duration, 3_000);
    assert_eq!(me.weak.duration, 0);
    assert_eq!(
        log,
        vec![
            GameEvent::ApplyStrength(ApplyStrengthMessage {
                target: PlayerHandle(0),
                amount: 2_000
            }),
            GameEvent::ApplyVulnerable(ApplyVulnerableMessage {
                target: PlayerHandle(1),
                duration: 2_000
            }),
            GameEvent::ApplyVulnerable(ApplyVulnerableMessage {
                target: PlayerHandle(0),
                duration: 1_500
            }),
            GameEvent::ApplyWeak(ApplyWeakMessage { target: PlayerHandle(1), duration: 3_000 }),
        ]
    );
}

#[test]
fn side_based_status_functions() {
    let mut me = player(0);
    let mut foe = player(1);
    let mut log = Vec::new();
    apply_strength(&mut me, &mut foe, &mut log, Side::Foe, 1_000);
    apply_vulnerable(&mut me, &mut foe, &mut log, Side::Me, 2_000);
    apply_weak(&mut me, &mut foe, &mut log, Side::Me, 3_000);
    add_status_card(&mut me, &mut foe, &mut log, CardId(301));
    assert_eq!(foe.strength.amount, 1_000);
    assert_eq!(me.vulnerable.duration, 2_000);
    assert_eq!(me.weak.duration, 3_000);
    assert_eq!(me.discard_pile.cards, vec![CardId(301)]);
    assert_eq!(
        log[3],
        GameEvent::AddStatusCard(AddStatusCardMessage {
            player: PlayerHandle(0),
            card_id: CardId(301)
        })
    );
}

#[test]
fn a_combo_acts_on_what_its_earlier_parts_left() {
    let mut me = player(0);
    let mut foe = player(1);
    play(
        combo3(CardEffect::Block(50_000), CardEffect::DoubleBlock, CardEffect::DoubleBlock),
        &mut me,
        &mut foe,
    );
    assert_eq!(me.block.current, 200_000);
    play(
        combo3(CardEffect::Strength(1_000), CardEffect::DoubleStrength, CardEffect::DoubleStrength),
        &mut me,
        &mut foe,
    );
    assert_eq!(me.strength.amount, 4_000);
    let log = play(
        combo2(CardEffect::Vulnerable(1_000), CardEffect::Damage(0)),
        &mut me,
        &mut foe,
    );
    assert_eq!(log[1], attack(60_000));
}

#[test]
fn nested_combos_run_in_order() {
    let mut me = player(0);
    let mut foe = player(1);
    let log = play(
        combo2(
            combo2(CardEffect::Damage(1_000), CardEffect::Damage(2_000)),
            combo2(CardEffect::Combo(Vec::new()), CardEffect::Damage(3_000)),
        ),
        &mut me,
        &mut foe,
    );
    assert_eq!(log, vec![attack(1_000), attack(2_000), attack(3_000)]);
}

#[test]
fn body_slam_attacks_with_block() {
    let mut me = player(0);
    let mut foe = player(1);
    me.block.current = 35_000;
    me.strength.amount = 500;
    let log = play(CardEffect::BodySlam, &mut me, &mut foe);
    assert_eq!(log, vec![attack(40_000)]);
    assert_eq!(me.block.current, 35_000);
}

#[test]
fn bloodletting_costs_health_when_negative() {
    let mut me = player(0);
    let mut foe = player(1);
    me.block.current = 5_000;
    me.thorns.damage = 9_000;
    let log = play(CardEffect::Bloodletting(-20_000), &mut me, &mut foe);
    assert_eq!(me.block.current, 0);
    assert_eq!(me.health.current, 85_000);
    assert_eq!(
        log,
        vec![GameEvent::Damage(DamageMessage {
            target: PlayerHandle(0),
            amount: 20_000,
            source: Some(PlayerHandle(0)),
            kind: DamageKind::Power,
        })]
    );
}

#[test]
fn bloodletting_heals_otherwise() {
    let mut me = player(0);
    let mut foe = player(1);
    me.health.current = 10_000;
    let log = play(CardEffect::Bloodletting(15_000), &mut me, &mut foe);
    assert_eq!(me.health.current, 25_000);
    assert_eq!(
        log,
        vec![GameEvent::Heal(HealMessage { target: PlayerHandle(0), amount: 15_000 })]
    );
    let none = play(CardEffect::Bloodletting(0), &mut me, &mut foe);
    assert_eq!(none, vec![GameEvent::Heal(HealMessage { target: PlayerHandle(0), amount: 0 })]);
}

#[test]
fn accelerate_raises_the_rate_at_once() {
    let mut me = player(0);
    let mut foe = player(1);
    let log = play(
        CardEffect::Accelerate { bonus_rate: 500, duration: 4_000 },
        &mut me,
        &mut foe,
    );
    assert!(log.is_empty());
    assert_eq!(me.clock.cost.rate, 1_500);
    assert_eq!(
        me.clock.acceleration,
        Some(Acceleration { bonus_rate: 500, remaining: 4_000 })
    );
    play(CardEffect::Accelerate { bonus_rate: 1_000, duration: 1_000 }, &mut me, &mut foe);
    assert_eq!(me.clock.cost.rate, 2_500);
    assert_eq!(
        me.clock.acceleration,
        Some(Acceleration { bonus_rate: 1_500, remaining: 4_000 })
    );
}

#[test]
fn draw_effect_draws() {
    let mut me = player(0);
    let mut foe = player(1);
    me.deck = Deck::new(vec![CardId(1), CardId(2), CardId(3)]);
    let log = play(CardEffect::Draw(2), &mut me, &mut foe);
    assert_eq!(me.hand.len(), 2);
    assert_eq!(me.deck.len(), 1);
    assert_eq!(
        log,
        vec![GameEvent::DrawCards(DrawCardsMessage { player: PlayerHandle(0), count: 2 })]
    );
}

#[test]
fn add_status_adds_to_the_discard_pile() {
    let mut me = player(0);
    let mut foe = player(1);
    let log = play(
        combo2(CardEffect::AddStatus(CardId(301)), CardEffect::AddStatus(CardId(302))),
        &mut me,
        &mut foe,
    );
    assert_eq!(me.discard_pile.cards, vec![CardId(301), CardId(302)]);
    assert_eq!(log.len(), 2);
    assert!(foe.discard_pile.is_empty());
}

#[test]
fn exhaust_effect_changes_nothing() {
    let mut me = player(0);
    let mut foe = player(1);
    let log = play(CardEffect::Exhaust, &mut me, &mut foe);
    assert!(log.is_empty());
    assert_eq!(me, player(0));
    assert_eq!(foe, player(1));
}

#[test]
fn powers_are_attached() {
    let mut me = player(0);
    let mut foe = player(1);
    let log = play(
        CardEffect::Combo(vec![
            CardEffect::Rage(30_000),
            CardEffect::Metallicize(30_000),
            CardEffect::Combust { self_damage: 5_000, enemy_damage: 25_000 },
            CardEffect::DemonForm(2_000),
            CardEffect::Barricade,
            CardEffect::Juggernaut(50_000),
            CardEffect::DarkEmbrace { draw: 1 },
            CardEffect::Evolve { draw: 2 },
            CardEffect::FeelNoPain { block: 30_000 },
            CardEffect::FireBreathing { damage: 60_000 },
            CardEffect::Rupture { strength: 1_000 },
            CardEffect::Corruption,
            CardEffect::Brutality { self_damage: 5_000, draw: 1, interval: 3_000 },
        ]),
        &mut me,
        &mut foe,
    );
    assert!(log.is_empty());
    assert_eq!(
        me.powers,
        Powers {
            rage: Some(RageEffect { block_per_attack: 30_000, duration: 10_000 }),
            metallicize: Some(MetallicizeEffect { block_per_second: 30_000 }),
            combust: Some(CombustEffect { self_damage: 5_000, enemy_damage: 25_000, timer: 0 }),
            demon_form: Some(DemonFormEffect { strength_per_second: 2_000, accumulated: 0 }),
            barricade: Some(BarricadeEffect),
            juggernaut: Some(JuggernautEffect { damage_on_block: 50_000 }),
            dark_embrace: Some(DarkEmbraceEffect { draw_on_exhaust: 1 }),
            evolve: Some(EvolveEffect { draw_on_status: 2 }),
            feel_no_pain: Some(FeelNoPainEffect { block_on_exhaust: 30_000 }),
            fire_breathing: Some(FireBreathingEffect { damage_on_status_draw: 60_000 }),
            rupture: Some(RuptureEffect { strength_on_self_damage: 1_000 }),
            corruption: Some(CorruptionEffect),
            brutality: Some(BrutalityEffect {
                self_damage: 5_000,
                draw: 1,
                interval: 3_000,
                timer: 0
            }),
        }
    );
    assert_eq!(foe.powers, Powers::default());
}

#[test]
fn a_power_played_again_replaces_itself() {
    let mut me = player(0);
    let mut foe = player(1);
    me.powers.combust = Some(CombustEffect { self_damage: 1, enemy_damage: 2, timer: 900 });
    me.powers.rage = Some(RageEffect { block_per_attack: 1, duration: 3 });
    play(CardEffect::Combust { self_damage: 5_000, enemy_damage: 25_000 }, &mut me, &mut foe);
    play(CardEffect::Rage(30_000), &mut me, &mut foe);
    assert_eq!(
        me.powers.combust,
        Some(CombustEffect { self_damage: 5_000, enemy_damage: 25_000, timer: 0 })
    );
    assert_eq!(me.powers.rage, Some(RageEffect { block_per_attack: 30_000, duration: 10_000 }));
}

#[test]
fn rage_gives_block_for_attacks_only() {
    let registry = registry();
    let mut me = player(0);
    let mut foe = player(1);
    let mut log = Vec::new();
    me.powers.rage = Some(RageEffect::new(30_000, 10_000));
    let strike = PlayOutcome { card_id: CardId(1), exhausted: false };
    apply_card_effects(&strike, &mut me, &mut foe, &mut log, &registry);
    assert_eq!(foe.health.current, 40_000);
    assert_eq!(me.block.current, 30_000);
    assert_eq!(log.len(), 2);
    let defend = PlayOutcome { card_id: CardId(100), exhausted: false };
    apply_card_effects(&defend, &mut me, &mut foe, &mut log, &registry);
    assert_eq!(me.block.current, 80_000);
    me.powers.rage = Some(RageEffect::new(30_000, 0));
    apply_card_effects(&strike, &mut me, &mut foe, &mut log, &registry);
    assert_eq!(me.block.current, 80_000);
}

#[test]
fn exhausting_draws_and_gives_block() {
    let registry = registry();
    let mut me = player(0);
    let mut foe = player(1);
    let mut log = Vec::new();
    me.deck = Deck::new(vec![CardId(1), CardId(2), CardId(3)]);
    me.powers.dark_embrace = Some(DarkEmbraceEffect::new(2));
    me.powers.feel_no_pain = Some(FeelNoPainEffect::new(30_000));
    let slimed = PlayOutcome { card_id: CardId(303), exhausted: true };
    apply_card_effects(&slimed, &mut me, &mut foe, &mut log, &registry);
    assert_eq!(me.hand.len(), 2);
    assert_eq!(me.block.current, 30_000);
    assert_eq!(
        log,
        vec![
            GameEvent::DrawCards(DrawCardsMessage { player: PlayerHandle(0), count: 2 }),
            GameEvent::GainBlock(GainBlockMessage { target: PlayerHandle(0), amount: 30_000 }),
        ]
    );
    let kept = PlayOutcome { card_id: CardId(303), exhausted: false };
    apply_card_effects(&kept, &mut me, &mut foe, &mut log, &registry);
    assert_eq!(log.len(), 2);
}

#[test]
fn unknown_cards_have_no_effect() {
    let registry = registry();
    let mut me = player(0);
    let mut foe = player(1);
    let mut log = Vec::new();
    me.powers.rage = Some(RageEffect::new(30_000, 10_000));
    let unknown = PlayOutcome { card_id: CardId(9_999), exhausted: false };
    apply_card_effects(&unknown, &mut me, &mut foe, &mut log, &registry);
    assert!(log.is_empty());
    assert_eq!(foe, player(1));
    assert_eq!(me.block.current, 0);
}

#[test]
fn registered_cards_resolve_as_defined() {
    let registry = registry();
    let mut me = player(0);
    let mut foe = player(1);
    let mut log = Vec::new();
    let bash = PlayOutcome { card_id: CardId(2), exhausted: false };
    apply_card_effects(&bash, &mut me, &mut foe, &mut log, &registry);
    assert_eq!(foe.health.current, 20_000);
    assert_eq!(foe.vulnerable.duration, 2_000);
    let hemokinesis = PlayOutcome { card_id: CardId(16), exhausted: false };
    apply_card_effects(&hemokinesis, &mut me, &mut foe, &mut log, &registry);
    assert_eq!(me.health.current, 80_000);
    assert_eq!(foe.health.current, 0);
}

#[test]
fn body_slam_without_block_still_meets_thorns() {
    let mut me = player(0);
    let mut foe = player(1);
    foe.thorns.damage = 4_000;
    let log = play(CardEffect::BodySlam, &mut me, &mut foe);
    assert_eq!(log.len(), 3);
    assert_eq!(log[0], attack(0));
    assert_eq!(foe.health.current, 100_000);
    assert_eq!(me.health.current, 96_000);
}

#[test]
fn an_attack_drained_to_nothing_still_meets_thorns() {
    let mut me = player(0);
    let mut foe = player(1);
    me.strength.amount = -50_000;
    foe.thorns.damage = 4_000;
    let log = play(CardEffect::Damage(60_000), &mut me, &mut foe);
    assert_eq!(log[0], attack(0));
    assert_eq!(log.len(), 3);
    assert_eq!(me.health.current, 96_000);
}

#[test]
fn an_effect_adds_one_status_card_for_each_add_status_node() {
    let mut me = player(0);
    let mut foe = player(1);
    me.deck = Deck::new(
        [300, 302, 1, 304, 2, 3, 4, 5].iter().map(|id| CardId(*id)).collect::<Vec<CardId>>(),
    );
    me.powers.evolve = Some(EvolveEffect::new(1));
    me.powers.fire_breathing = Some(FireBreathingEffect::new(1_000));
    foe.thorns.damage = 2_000;
    let effect = combo3(
        CardEffect::AddStatus(CardId(301)),
        combo2(CardEffect::Damage(1_000), CardEffect::AddStatus(CardId(302))),
        combo3(CardEffect::Draw(2), CardEffect::AddStatus(CardId(301)), CardEffect::Block(1)),
    );
    let owned = |p: &PlayerBundle| {
        p.deck.len() + p.hand.len() + p.discard_pile.len() + p.exhausted_count()
    };
    let before = (owned(&me), owned(&foe));
    let log = play(effect, &mut me, &mut foe);
    let added: Vec<AddStatusCardMessage> = log
        .iter()
        .filter_map(|event| match event {
            GameEvent::AddStatusCard(msg) => Some(*msg),
            _ => None,
        })
        .collect();
    let expected: Vec<AddStatusCardMessage> = [301, 302, 301]
        .iter()
        .map(|id| AddStatusCardMessage { player: PlayerHandle(0), card_id: CardId(*id) })
        .collect();
    assert_eq!(added, expected);
    assert_eq!(me.discard_pile.cards, vec![CardId(301), CardId(302), CardId(301)]);
    assert_eq!(owned(&me), before.0 + 3);
    assert_eq!(owned(&foe), before.1);
    assert!(me.hand.len() >= 2);
}

#[test]
fn effects_without_add_status_add_no_status_card() {
    let mut me = player(0);
    let mut foe = player(1);
    me.deck = Deck::new(vec![CardId(300), CardId(302), CardId(301)]);
    me.powers.fire_breathing = Some(FireBreathingEffect::new(1_000));
    let effect = CardEffect::Combo(vec![
        CardEffect::Draw(3),
        CardEffect::MultiHit { damage: 1_000, hits: 2 },
        CardEffect::Bloodletting(-1_000),
        CardEffect::Exhaust,
        CardEffect::Corruption,
    ]);
    let log = play(effect, &mut me, &mut foe);
    assert!(log.iter().all(|event| !matches!(event, GameEvent::AddStatusCard(_))));
    assert!(me.discard_pile.is_empty());
    assert_eq!(me.hand.len(), 3);
}
