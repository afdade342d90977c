use sensen::card::{CardEffect, CardId, CardRegistry};
use sensen::cards::{combo2, combo3, setup_all_cards};
use sensen::kind::{primary_effect, unified_effect_kind, EffectKind};

#[test]
fn single_effects_have_their_own_kind() {
    assert_eq!(unified_effect_kind(&CardEffect::Damage(1)), Some(EffectKind::Damage));
    assert_eq!(
        unified_effect_kind(&CardEffect::MultiHit { damage: 1, hits: 2 }),
        Some(EffectKind::Damage)
    );
    assert_eq!(unified_effect_kind(&CardEffect::BodySlam), Some(EffectKind::Damage));
    assert_eq!(
        unified_effect_kind(&CardEffect::FireBreathing { damage: 1 }),
        Some(EffectKind::Damage)
    );
    assert_eq!(unified_effect_kind(&CardEffect::Heal(1)), Some(EffectKind::Heal));
    assert_eq!(unified_effect_kind(&CardEffect::Draw(1)), Some(EffectKind::Draw));
    assert_eq!(unified_effect_kind(&CardEffect::DarkEmbrace { draw: 1 }), Some(EffectKind::Draw));
    assert_eq!(unified_effect_kind(&CardEffect::Evolve { draw: 1 }), Some(EffectKind::Draw));
    assert_eq!(unified_effect_kind(&CardEffect::Block(1)), Some(EffectKind::Block));
    assert_eq!(unified_effect_kind(&CardEffect::DoubleBlock), Some(EffectKind::Block));
    assert_eq!(unified_effect_kind(&CardEffect::FeelNoPain { block: 1 }), Some(EffectKind::Block));
    assert_eq!(unified_effect_kind(&CardEffect::Thorns(1)), Some(EffectKind::Thorns));
    assert_eq!(
        unified_effect_kind(&CardEffect::Accelerate { bonus_rate: 1, duration: 1 }),
        Some(EffectKind::Accelerate)
    );
}

#[test]
fn other_effects_have_no_kind() {
    for effect in [
        CardEffect::Strength(1),
        CardEffect::DoubleStrength,
        CardEffect::DemonForm(1),
        CardEffect::Vulnerable(1),
        CardEffect::SelfVulnerable(1),
        CardEffect::Weak(1),
        CardEffect::Bloodletting(1),
        CardEffect::Rage(1),
        CardEffect::Metallicize(1),
        CardEffect::Combust { self_damage: 1, enemy_damage: 1 },
        CardEffect::Barricade,
        CardEffect::Juggernaut(1),
        CardEffect::Rupture { strength: 1 },
        CardEffect::Corruption,
        CardEffect::Brutality { self_damage: 1, draw: 1, interval: 1 },
        CardEffect::Exhaust,
        CardEffect::AddStatus(CardId(301)),
    ] {
        assert_eq!(unified_effect_kind(&effect), None);
    }
}

#[test]
fn a_combo_has_the_kind_that_all_its_parts_share() {
    let same = combo3(CardEffect::Damage(1), CardEffect::BodySlam, CardEffect::Damage(2));
    assert_eq!(unified_effect_kind(&same), Some(EffectKind::Damage));
    let mixed = combo2(CardEffect::Damage(1), CardEffect::Block(1));
    assert_eq!(unified_effect_kind(&mixed), None);
    let with_none = combo2(CardEffect::Damage(1), CardEffect::Weak(1));
    assert_eq!(unified_effect_kind(&with_none), None);
    let none_first = combo2(CardEffect::Weak(1), CardEffect::Damage(1));
    assert_eq!(unified_effect_kind(&none_first), None);
    assert_eq!(unified_effect_kind(&CardEffect::Combo(Vec::new())), None);
    let nested = combo2(combo2(CardEffect::Draw(1), CardEffect::Draw(2)), CardEffect::Draw(3));
    assert_eq!(unified_effect_kind(&nested), Some(EffectKind::Draw));
    let empty_inside = combo2(CardEffect::Draw(1), CardEffect::Combo(Vec::new()));
    assert_eq!(unified_effect_kind(&empty_inside), None);
}

#[test]
fn primary_effect_is_the_first_leaf() {
    assert!(matches!(primary_effect(&CardEffect::Heal(3)), CardEffect::Heal(3)));
    let nested = combo2(combo2(CardEffect::Draw(1), CardEffect::Heal(2)), CardEffect::Damage(3));
    assert!(matches!(primary_effect(&nested), CardEffect::Draw(1)));
    let empty = CardEffect::Combo(Vec::new());
    assert!(matches!(primary_effect(&empty), CardEffect::Combo(parts) if parts.is_empty()));
    let empty_first = combo2(CardEffect::Combo(Vec::new()), CardEffect::Damage(3));
    assert!(matches!(primary_effect(&empty_first), CardEffect::Combo(parts) if parts.is_empty()));
}

#[test]
fn kinds_of_some_cards() {
    let mut registry = CardRegistry::default();
    setup_all_cards(&mut registry);
    let kind = |id: u32| unified_effect_kind(&registry.get(CardId(id)).unwrap().effect);
    assert_eq!(kind(1), Some(EffectKind::Damage));
    assert_eq!(kind(2), None);
    assert_eq!(kind(100), Some(EffectKind::Block));
    assert_eq!(kind(119), Some(EffectKind::Accelerate));
    assert_eq!(kind(201), Some(EffectKind::Draw));
    assert_eq!(kind(301), None);
}
