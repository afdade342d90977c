use sensen::card::{
    same_type, CardDef, CardEffect, CardId, CardRarity, CardRegistry, CardType,
};
use sensen::cards::attack::register_attack_cards;
use sensen::cards::power::register_power_cards;
use sensen::cards::skill::register_skill_cards;
use sensen::cards::status::register_status_cards;
use sensen::cards::{card, combo2, combo3, setup_all_cards};
use sensen::player::create_test_deck;

fn registry() -> CardRegistry {
    let mut registry = CardRegistry::default();
    setup_all_cards(&mut registry);
    registry
}

fn damage_of(effect: &CardEffect) -> Option<i64> {
    match effect {
        CardEffect::Damage(amount) => Some(*amount),
        _ => None,
    }
}

#[test]
fn empty_registry_knows_nothing() {
    let registry = CardRegistry::default();
    assert!(registry.all().is_empty());
    assert!(registry.get(CardId(1)).is_none());
    assert!(registry.get_by_name("Strike").is_none());
    assert_eq!(registry.try_id("Strike"), None);
    assert!(registry.get_by_type(CardType::Attack).is_empty());
}

#[test]
fn card_builds_a_definition() {
    let def = card(7, "Iron Wave", CardType::Attack, CardRarity::Common, 1_000, CardEffect::BodySlam);
    assert_eq!(def.id, CardId(7));
    assert_eq!(def.name, "Iron Wave");
    assert_eq!(def.card_type, CardType::Attack);
    assert_eq!(def.rarity, CardRarity::Common);
    assert_eq!(def.cost, 1_000);
    assert!(matches!(def.effect, CardEffect::BodySlam));
}

#[test]
fn combos_keep_their_parts_in_order() {
    match combo2(CardEffect::Damage(1), CardEffect::Heal(2)) {
        CardEffect::Combo(parts) => {
            assert_eq!(parts.len(), 2);
            assert!(matches!(parts[0], CardEffect::Damage(1)));
            assert!(matches!(parts[1], CardEffect::Heal(2)));
        }
        _ => panic!("not a combo"),
    }
    match combo3(CardEffect::Damage(1), CardEffect::Heal(2), CardEffect::Draw(3)) {
        CardEffect::Combo(parts) => {
            assert_eq!(parts.len(), 3);
            assert!(matches!(parts[2], CardEffect::Draw(3)));
        }
        _ => panic!("not a combo"),
    }
}

#[test]
fn register_appends() {
    let mut registry = CardRegistry::default();
    registry.register(card(5, "A", CardType::Skill, CardRarity::Rare, 1, CardEffect::Exhaust));
    registry.register(card(6, "B", CardType::Skill, CardRarity::Rare, 2, CardEffect::Exhaust));
    let names: Vec<&str> = registry.all().iter().map(|def| def.name.as_str()).collect();
    assert_eq!(names, vec!["A", "B"]);
}

#[test]
fn first_registration_wins() {
    let mut registry = CardRegistry::default();
    registry.register(card(5, "Old", CardType::Skill, CardRarity::Rare, 1, CardEffect::Exhaust));
    registry.register(card(5, "New", CardType::Attack, CardRarity::Rare, 2, CardEffect::Exhaust));
    registry.register(card(6, "old", CardType::Power, CardRarity::Rare, 3, CardEffect::Exhaust));
    assert_eq!(registry.get(CardId(5)).unwrap().name, "Old");
    assert_eq!(registry.get_by_name("OLD").unwrap().id, CardId(5));
    assert_eq!(registry.id("new"), CardId(5));
    assert_eq!(registry.get_by_name("new").unwrap().cost, 2);
}

#[test]
fn the_game_has_seventy_four_cards() {
    let registry = registry();
    assert_eq!(registry.all().len(), 74);
    assert_eq!(registry.get_by_type(CardType::Attack).len(), 27);
    assert_eq!(registry.get_by_type(CardType::Skill).len(), 28);
    assert_eq!(registry.get_by_type(CardType::Power).len(), 14);
    assert_eq!(registry.get_by_type(CardType::Status).len(), 5);
}

#[test]
fn each_kind_registers_its_own_cards() {
    let mut attacks = CardRegistry::default();
    register_attack_cards(&mut attacks);
    assert_eq!(attacks.all().len(), 27);
    assert!(attacks.all().iter().all(|def| def.card_type == CardType::Attack));
    let mut skills = CardRegistry::default();
    register_skill_cards(&mut skills);
    assert_eq!(skills.all().len(), 28);
    assert!(skills.all().iter().all(|def| def.card_type == CardType::Skill));
    let mut powers = CardRegistry::default();
    register_power_cards(&mut powers);
    assert_eq!(powers.all().len(), 14);
    assert!(powers.all().iter().all(|def| def.card_type == CardType::Power));
    let mut statuses = CardRegistry::default();
    register_status_cards(&mut statuses);
    assert_eq!(statuses.all().len(), 5);
    assert!(statuses.all().iter().all(|def| def.card_type == CardType::Status));
}

#[test]
fn ids_are_unique_and_follow_the_kind() {
    let registry = registry();
    let all: &[CardDef] = registry.all();
    for (i, def) in all.iter().enumerate() {
        for other in &all[i + 1..] {
            assert_ne!(def.id, other.id);
            assert_ne!(def.name.to_lowercase(), other.name.to_lowercase());
        }
        let range = match def.card_type {
            CardType::Attack => 1..=99,
            CardType::Skill => 100..=199,
            CardType::Power => 200..=299,
            CardType::Status => 300..=399,
        };
        assert!(range.contains(&def.id.0), "{}", def.name);
        assert!(def.cost >= 0);
    }
}

#[test]
fn status_cards_added_by_effects_are_registered() {
    fn check(registry: &CardRegistry, effect: &CardEffect) {
        match effect {
            CardEffect::AddStatus(id) => {
                assert_eq!(registry.get(*id).unwrap().card_type, CardType::Status);
            }
            CardEffect::Combo(parts) => {
                for part in parts {
                    check(registry, part);
                }
            }
            _ => {}
        }
    }
    let registry = registry();
    for def in registry.all() {
        check(&registry, &def.effect);
    }
}

#[test]
fn cards_are_found_by_id() {
    let registry = registry();
    let strike = registry.get(CardId(1)).unwrap();
    assert_eq!(strike.name, "Strike");
    assert_eq!(strike.cost, 1_000);
    assert_eq!(strike.rarity, CardRarity::Starter);
    assert_eq!(damage_of(&strike.effect), Some(60_000));
    let anger = registry.get(CardId(3)).unwrap();
    assert_eq!(anger.cost, 500);
    let bludgeon = registry.get(CardId(23)).unwrap();
    assert_eq!(damage_of(&bludgeon.effect), Some(320_000));
    assert_eq!(bludgeon.cost, 3_000);
    assert_eq!(bludgeon.rarity, CardRarity::Rare);
    let wound = registry.get(CardId(301)).unwrap();
    assert_eq!(wound.cost, 999_000);
    assert!(matches!(wound.effect, CardEffect::Exhaust));
    assert_eq!(wound.rarity, CardRarity::Special);
    assert!(registry.get(CardId(0)).is_none());
    assert!(registry.get(CardId(28)).is_none());
    assert!(registry.get(CardId(u32::MAX)).is_none());
}

#[test]
fn effects_are_as_defined() {
    let registry = registry();
    match &registry.get(CardId(15)).unwrap().effect {
        CardEffect::Combo(parts) => {
            assert!(matches!(parts[0], CardEffect::Damage(50_000)));
            assert!(matches!(parts[1], CardEffect::Draw(1)));
            assert!(matches!(
                parts[2],
                CardEffect::Accelerate { bonus_rate: 500, duration: 2_000 }
            ));
        }
        _ => panic!("Dropkick is a combo"),
    }
    assert!(matches!(
        registry.get(CardId(9)).unwrap().effect,
        CardEffect::MultiHit { damage: 30_000, hits: 3 }
    ));
    assert!(matches!(
        registry.get(CardId(210)).unwrap().effect,
        CardEffect::Brutality { self_damage: 5_000, draw: 1, interval: 3_000 }
    ));
    assert!(matches!(
        registry.get(CardId(200)).unwrap().effect,
        CardEffect::Combust { self_damage: 5_000, enemy_damage: 25_000 }
    ));
    assert!(matches!(
        registry.get(CardId(302)).unwrap().effect,
        CardEffect::Bloodletting(-20_000)
    ));
    assert!(matches!(registry.get(CardId(117)).unwrap().effect, CardEffect::Rage(30_000)));
    assert!(matches!(registry.get(CardId(111)).unwrap().effect, CardEffect::DoubleBlock));
    assert!(matches!(registry.get(CardId(126)).unwrap().effect, CardEffect::DoubleStrength));
}

#[test]
fn cards_are_found_by_name_whatever_the_case() {
    let registry = registry();
    assert_eq!(registry.get_by_name("Strike").unwrap().id, CardId(1));
    assert_eq!(registry.get_by_name("strike").unwrap().id, CardId(1));
    assert_eq!(registry.get_by_name("IRON WAVE").unwrap().id, CardId(7));
    assert_eq!(registry.get_by_name("feel no pain").unwrap().id, CardId(203));
    assert!(registry.get_by_name("Iron  Wave").is_none());
    assert!(registry.get_by_name(" Strike").is_none());
    assert!(registry.get_by_name("").is_none());
    assert_eq!(registry.get_by_lowered(&"void".to_string()).unwrap().id, CardId(304));
    assert!(registry.get_by_lowered(&"Void".to_string()).is_none());
}

#[test]
fn ids_are_found_by_name() {
    let registry = registry();
    assert_eq!(registry.id("Defend"), CardId(100));
    assert_eq!(registry.id("demon form"), CardId(212));
    assert_eq!(registry.try_id("Defend"), Some(CardId(100)));
    assert_eq!(registry.try_id("BURN"), Some(CardId(302)));
    assert_eq!(registry.try_id("Defend!"), None);
}

#[test]
fn cards_of_a_type_come_in_order() {
    let registry = registry();
    let powers: Vec<u32> =
        registry.get_by_type(CardType::Power).iter().map(|def| def.id.0).collect();
    assert_eq!(powers, (200..=213).collect::<Vec<u32>>());
    let statuses: Vec<&str> =
        registry.get_by_type(CardType::Status).iter().map(|def| def.name.as_str()).collect();
    assert_eq!(statuses, vec!["Dazed", "Wound", "Burn", "Slimed", "Void"]);
}

#[test]
fn same_type_compares_types() {
    let types = [CardType::Attack, CardType::Skill, CardType::Power, CardType::Status];
    for one in types {
        for other in types {
            assert_eq!(same_type(one, other), one == other);
        }
    }
}

#[test]
fn default_rarity_is_starter() {
    assert_eq!(CardRarity::default(), CardRarity::Starter);
}

#[test]
fn test_deck_holds_a_dozen_cards() {
    let deck: Vec<u32> = create_test_deck().iter().map(|id| id.0).collect();
    assert_eq!(deck, vec![1, 1, 2, 3, 4, 5, 5, 6, 7, 8, 9, 10]);
}
