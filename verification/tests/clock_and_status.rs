use sensen::card::{CardId, CardRegistry};
use sensen::cards::setup_all_cards;
use sensen::cost::{
    accumulate_cost_delta, tick_acceleration_delta, Acceleration, Clock, Cost,
};
use sensen::deck::Deck;
use sensen::event::{DrawCardsMessage, GameEvent};
use sensen::health::{DamageKind, DamageMessage, GainBlockMessage};
use sensen::player::{PlayerBundle, PlayerHandle};
use sensen::rules::{
    BLOCK_DECAY_RATE, COMBUST_PERIOD, DRAW_COST, DRAW_COUNT, INITIAL_HP, MAX_HAND_SIZE,
    OPENING_HAND, RAGE_DURATION, STRENGTH_DAMAGE,
};
use sensen::status::{
    attack_damage, tick_block_decay_delta, tick_power_effects_delta, tick_status_effects_delta,
    BarricadeEffect, BrutalityEffect, CombustEffect, DemonFormEffect, MetallicizeEffect, Powers,
    RageEffect, Strength, Vulnerable, Weak,
};

fn registry() -> CardRegistry {
    let mut registry = CardRegistry::default();
    setup_all_cards(&mut registry);
    registry
}

fn player(handle: usize) -> PlayerBundle {
    PlayerBundle::with_health(0, handle, 1_000, Vec::new(), 100_000)
}

#[test]
fn rules_are_in_thousandths() {
    assert_eq!(INITIAL_HP, 1_000_000);
    assert_eq!(DRAW_COST, 2_000);
    assert_eq!(DRAW_COUNT, 3);
    assert_eq!(OPENING_HAND, 5);
    assert_eq!(MAX_HAND_SIZE, 10);
    assert_eq!(BLOCK_DECAY_RATE, 20_000);
    assert_eq!(STRENGTH_DAMAGE, 10);
    assert_eq!(RAGE_DURATION, 10_000);
    assert_eq!(COMBUST_PERIOD, 1_000);
}

#[test]
fn cost_starts_empty() {
    assert_eq!(Cost::new(1_500), Cost { current: 0, rate: 1_500 });
    assert_eq!(Cost::default(), Cost { current: 0, rate: 0 });
}

#[test]
fn cost_accumulates_rate_times_time() {
    let mut cost = Cost::new(1_000);
    cost.accumulate(16);
    assert_eq!(cost.current, 16);
    cost.accumulate(2_000);
    assert_eq!(cost.current, 2_016);
    let mut fast = Cost::new(1_500);
    fast.accumulate(4_000);
    assert_eq!(fast.current, 6_000);
}

#[test]
fn cost_is_spent_only_when_affordable() {
    let mut cost = Cost { current: 2_500, rate: 1_000 };
    assert!(cost.can_afford(2_500));
    assert!(!cost.can_afford(2_501));
    assert!(!cost.try_spend(2_501));
    assert_eq!(cost.current, 2_500);
    assert!(cost.try_spend(2_000));
    assert_eq!(cost.current, 500);
    assert!(cost.try_spend(0));
    assert_eq!(cost.current, 500);
    assert!(cost.try_spend(500));
    assert_eq!(cost.current, 0);
    assert!(!cost.try_spend(1));
}

#[test]
fn acceleration_new_and_extend() {
    assert_eq!(Acceleration::new(500, 4_000), Acceleration { bonus_rate: 500, remaining: 4_000 });
    assert_eq!(Acceleration::new(500, -1), Acceleration { bonus_rate: 500, remaining: 0 });
    assert_eq!(Acceleration::default(), Acceleration { bonus_rate: 0, remaining: 0 });
    let mut running = Acceleration::new(500, 4_000);
    running.extend(600, 6_000);
    assert_eq!(running, Acceleration { bonus_rate: 1_100, remaining: 6_000 });
    running.extend(100, 1_000);
    assert_eq!(running, Acceleration { bonus_rate: 1_200, remaining: 6_000 });
}

#[test]
fn acceleration_lifecycle() {
    let mut clock = Clock { cost: Cost::new(1_000), acceleration: None };
    clock.accelerate(500, 4_000);
    assert_eq!(clock.cost.rate, 1_500);
    assert_eq!(clock.acceleration, Some(Acceleration { bonus_rate: 500, remaining: 4_000 }));
    for _ in 0..3 {
        tick_acceleration_delta(1_000, &mut clock);
        assert_eq!(clock.cost.rate, 1_500);
    }
    assert_eq!(clock.acceleration, Some(Acceleration { bonus_rate: 500, remaining: 1_000 }));
    tick_acceleration_delta(1_000, &mut clock);
    assert_eq!(clock.cost.rate, 1_000);
    assert_eq!(clock.acceleration, None);
    tick_acceleration_delta(1_000, &mut clock);
    assert_eq!(clock.cost.rate, 1_000);
}

#[test]
fn acceleration_in_small_steps_returns_the_rate_exactly() {
    let mut clock = Clock { cost: Cost::new(1_000), acceleration: None };
    clock.accelerate(500, 4_000);
    let mut elapsed = 0;
    while clock.acceleration.is_some() {
        tick_acceleration_delta(16, &mut clock);
        accumulate_cost_delta(16, &mut clock);
        elapsed += 16;
    }
    assert_eq!(elapsed, 4_000);
    assert_eq!(clock.cost.rate, 1_000);
    assert_eq!(clock.cost.current, 249 * 24 + 16);
}

#[test]
fn stacked_accelerations_leave_together() {
    let mut clock = Clock { cost: Cost::new(1_000), acceleration: None };
    clock.accelerate(500, 2_000);
    clock.accelerate(1_500, 4_000);
    assert_eq!(clock.cost.rate, 3_000);
    tick_acceleration_delta(3_999, &mut clock);
    assert_eq!(clock.cost.rate, 3_000);
    tick_acceleration_delta(1, &mut clock);
    assert_eq!(clock.cost.rate, 1_000);
    assert_eq!(clock.acceleration, None);
}

#[test]
fn rate_does_not_fall_below_zero_when_acceleration_ends() {
    let mut clock = Clock {
        cost: Cost { current: 0, rate: 200 },
        acceleration: Some(Acceleration { bonus_rate: 500, remaining: 10 }),
    };
    tick_acceleration_delta(10, &mut clock);
    assert_eq!(clock.cost.rate, 0);
    assert_eq!(clock.acceleration, None);
}

#[test]
fn strength_adds_ten_damage_a_point() {
    let mut strength = Strength::default();
    strength.gain(2_000);
    assert_eq!(strength.amount, 2_000);
    assert_eq!(strength.damage_bonus(), 20_000);
    assert_eq!(strength.modify_damage(60_000), 80_000);
    strength.gain(-9_000);
    assert_eq!(strength.amount, -7_000);
    assert_eq!(strength.modify_damage(60_000), 0);
    assert_eq!(strength.modify_damage(100_000), 30_000);
}

#[test]
fn vulnerable_and_weak_multipliers() {
    let none = Strength::default();
    let weak = Weak { duration: 1 };
    let not_weak = Weak::default();
    let vulnerable = Vulnerable { duration: 1 };
    let not_vulnerable = Vulnerable::default();
    assert_eq!(attack_damage(100_000, &none, &not_weak, &not_vulnerable), 100_000);
    assert_eq!(attack_damage(100_000, &none, &weak, &not_vulnerable), 75_000);
    assert_eq!(attack_damage(100_000, &none, &not_weak, &vulnerable), 150_000);
    assert_eq!(attack_damage(100_000, &none, &weak, &vulnerable), 112_500);
}

#[test]
fn strength_comes_before_the_multipliers() {
    let strength = Strength { amount: 2_000 };
    let weak = Weak { duration: 500 };
    let vulnerable = Vulnerable { duration: 500 };
    assert_eq!(attack_damage(60_000, &strength, &weak, &vulnerable), 90_000);
    let drained = Strength { amount: -10_000 };
    assert_eq!(attack_damage(60_000, &drained, &weak, &vulnerable), 0);
    assert_eq!(attack_damage(7, &Strength::default(), &weak, &vulnerable), 7);
}

#[test]
fn vulnerable_and_weak_run_down() {
    let mut vulnerable = Vulnerable::default();
    assert!(!vulnerable.is_active());
    vulnerable.apply(2_000);
    vulnerable.apply(1_000);
    assert_eq!(vulnerable.duration, 3_000);
    assert!(vulnerable.is_active());
    assert_eq!(vulnerable.modify_incoming_damage(10_000), 15_000);
    vulnerable.tick(2_999);
    assert_eq!(vulnerable.duration, 1);
    vulnerable.tick(16);
    assert_eq!(vulnerable.duration, 0);
    assert_eq!(vulnerable.modify_incoming_damage(10_000), 10_000);
    let mut weak = Weak::default();
    weak.apply(-5);
    assert_eq!(weak.duration, 0);
    weak.apply(1_000);
    assert_eq!(weak.modify_outgoing_damage(10_000), 7_500);
    weak.tick(1_000);
    assert!(!weak.is_active());
    assert_eq!(weak.modify_outgoing_damage(10_000), 10_000);
}

#[test]
fn demon_form_hands_out_whole_points() {
    let mut demon = DemonFormEffect::new(2_000);
    let mut total = 0;
    for tick in 1..=31 {
        total += demon.tick(16);
        assert_eq!(demon.accumulated, 32 * tick);
    }
    assert_eq!(total, 0);
    assert_eq!(demon.tick(16), 1_000);
    assert_eq!(demon.accumulated, 24);
    assert_eq!(demon.tick(2_600), 5_000);
    assert_eq!(demon.accumulated, 224);
}

#[test]
fn status_tick_runs_down_and_pays_out() {
    let mut me = player(0);
    me.vulnerable.duration = 2_000;
    me.weak.duration = 10;
    me.powers.rage = Some(RageEffect::new(30_000, RAGE_DURATION));
    me.powers.demon_form = Some(DemonFormEffect { strength_per_second: 2_000, accumulated: 990 });
    tick_status_effects_delta(16, &mut me);
    assert_eq!(me.vulnerable.duration, 1_984);
    assert_eq!(me.weak.duration, 0);
    assert_eq!(me.powers.rage, Some(RageEffect { block_per_attack: 30_000, duration: 9_984 }));
    assert_eq!(me.strength.amount, 1_000);
    assert_eq!(
        me.powers.demon_form,
        Some(DemonFormEffect { strength_per_second: 2_000, accumulated: 22 })
    );
}

#[test]
fn rage_runs_out() {
    let mut rage = RageEffect::new(30_000, 10_000);
    assert!(rage.is_active());
    rage.duration = 0;
    assert!(!rage.is_active());
    let mut me = player(0);
    me.powers.rage = Some(RageEffect::new(30_000, 5));
    tick_status_effects_delta(16, &mut me);
    assert_eq!(me.powers.rage, Some(RageEffect { block_per_attack: 30_000, duration: 0 }));
}

#[test]
fn block_decays_unless_barricaded() {
    let mut me = player(0);
    me.block.current = 1_000;
    tick_block_decay_delta(16, &mut me);
    assert_eq!(me.block.current, 680);
    tick_block_decay_delta(1_000, &mut me);
    assert_eq!(me.block.current, 0);
    me.block.current = 1_000;
    me.powers.barricade = Some(BarricadeEffect);
    tick_block_decay_delta(60_000, &mut me);
    assert_eq!(me.block.current, 1_000);
}

#[test]
fn metallicize_gives_block_in_proportion() {
    let registry = registry();
    let mut me = player(0);
    let mut foe = player(1);
    let mut log = Vec::new();
    me.powers.metallicize = Some(MetallicizeEffect::new(30_000));
    tick_power_effects_delta(16, &mut me, &mut foe, &mut log, &registry);
    assert_eq!(me.block.current, 480);
    assert_eq!(
        log,
        vec![GameEvent::GainBlock(GainBlockMessage { target: PlayerHandle(0), amount: 480 })]
    );
}

#[test]
fn combust_pays_out_every_period_of_a_long_tick() {
    let registry = registry();
    let mut me = player(0);
    let mut foe = player(1);
    let mut log = Vec::new();
    me.powers.combust = Some(CombustEffect::new(5_000, 25_000));
    foe.thorns.damage = 50_000;
    tick_power_effects_delta(3_500, &mut me, &mut foe, &mut log, &registry);
    assert_eq!(me.health.current, 85_000);
    assert_eq!(foe.health.current, 25_000);
    assert_eq!(
        me.powers.combust,
        Some(CombustEffect { self_damage: 5_000, enemy_damage: 25_000, timer: 500 })
    );
    let own = GameEvent::Damage(DamageMessage {
        target: PlayerHandle(0),
        amount: 5_000,
        source: Some(PlayerHandle(0)),
        kind: DamageKind::Power,
    });
    let theirs = GameEvent::Damage(DamageMessage {
        target: PlayerHandle(1),
        amount: 25_000,
        source: Some(PlayerHandle(0)),
        kind: DamageKind::Power,
    });
    assert_eq!(
        log,
        vec![own.clone(), theirs.clone(), own.clone(), theirs.clone(), own, theirs]
    );
}

#[test]
fn combust_waits_for_a_whole_period() {
    let registry = registry();
    let mut me = player(0);
    let mut foe = player(1);
    let mut log = Vec::new();
    me.powers.combust = Some(CombustEffect::new(5_000, 25_000));
    for _ in 0..62 {
        tick_power_effects_delta(16, &mut me, &mut foe, &mut log, &registry);
    }
    assert!(log.is_empty());
    tick_power_effects_delta(16, &mut me, &mut foe, &mut log, &registry);
    assert_eq!(log.len(), 2);
    assert_eq!(me.powers.combust.unwrap().timer, 8);
}

#[test]
fn brutality_hurts_and_draws_every_interval() {
    let registry = registry();
    let mut me = player(0);
    let mut foe = player(1);
    let mut log = Vec::new();
    me.deck = Deck::new(vec![CardId(1), CardId(2), CardId(3)]);
    me.powers.brutality = Some(BrutalityEffect::new(5_000, 1, 3_000));
    tick_power_effects_delta(7_000, &mut me, &mut foe, &mut log, &registry);
    assert_eq!(me.health.current, 90_000);
    assert_eq!(me.hand.len(), 2);
    assert_eq!(me.deck.len(), 1);
    assert_eq!(me.powers.brutality.unwrap().timer, 1_000);
    let own = GameEvent::Damage(DamageMessage {
        target: PlayerHandle(0),
        amount: 5_000,
        source: Some(PlayerHandle(0)),
        kind: DamageKind::Power,
    });
    let draw = GameEvent::DrawCards(DrawCardsMessage { player: PlayerHandle(0), count: 1 });
    assert_eq!(log, vec![own.clone(), draw.clone(), own, draw]);
}

#[test]
fn brutality_without_an_interval_rests() {
    let registry = registry();
    let mut me = player(0);
    let mut foe = player(1);
    let mut log = Vec::new();
    me.powers.brutality = Some(BrutalityEffect::new(5_000, 1, 0));
    tick_power_effects_delta(7_000, &mut me, &mut foe, &mut log, &registry);
    assert_eq!(me.powers.brutality, Some(BrutalityEffect::new(5_000, 1, 0)));
    assert!(log.is_empty());
}

#[test]
fn no_powers_by_default() {
    let powers = Powers::default();
    assert_eq!(powers.rage, None);
    assert_eq!(powers.metallicize, None);
    assert_eq!(powers.combust, None);
    assert_eq!(powers.demon_form, None);
    assert_eq!(powers.barricade, None);
    assert_eq!(powers.juggernaut, None);
    assert_eq!(powers.dark_embrace, None);
    assert_eq!(powers.evolve, None);
    assert_eq!(powers.feel_no_pain, None);
    assert_eq!(powers.fire_breathing, None);
    assert_eq!(powers.rupture, None);
    assert_eq!(powers.corruption, None);
    assert_eq!(powers.brutality, None);
}

#[test]
fn a_long_tick_pays_out_what_short_ticks_would() {
    let registry = registry();
    let mut long = (player(0), player(1), Vec::new());
    let mut short = (player(0), player(1), Vec::new());
    for state in [&mut long, &mut short] {
        state.0.powers.combust = Some(CombustEffect::new(5_000, 7_000));
        state.0.powers.brutality = Some(BrutalityEffect::new(1_000, 0, 700));
    }
    tick_power_effects_delta(3_500, &mut long.0, &mut long.1, &mut long.2, &registry);
    for _ in 0..35 {
        tick_power_effects_delta(100, &mut short.0, &mut short.1, &mut short.2, &registry);
    }
    assert_eq!(long.0, short.0);
    assert_eq!(long.1, short.1);
    assert_eq!(long.0.health.current, 100_000 - 3 * 5_000 - 5 * 1_000);
    assert_eq!(long.1.health.current, 100_000 - 3 * 7_000);
    assert_eq!(long.2.len(), short.2.len());
}

#[test]
fn demon_form_loses_nothing_to_rounding() {
    let mut fine = DemonFormEffect::new(1_500);
    let mut coarse = DemonFormEffect::new(1_500);
    let mut fine_total = 0;
    for _ in 0..1_000 {
        fine_total += fine.tick(10);
    }
    let coarse_total = coarse.tick(10_000);
    assert_eq!(coarse_total, 15_000);
    assert_eq!(fine_total, 15_000);
    assert_eq!(fine.accumulated, 0);
    assert_eq!(coarse.accumulated, 0);
}
