//! Power cards - permanent effects that persist for the whole match.  Card ids 200-299.

use vstd::prelude::*;
use crate::card::{CardDefView, CardEffect, CardRarity, CardRegistry, CardType, EffectTree};
use crate::cards::{card, combo2, entry};

verus! {

/// The power cards, in the order of registration.
pub open spec fn power_cards() -> Seq<CardDefView> {
    seq![
        entry(
            200,
            "Combust"@,
            CardType::Power,
            CardRarity::Uncommon,
            1_000,
            EffectTree::Combust { self_damage: 5_000, enemy_damage: 25_000 },
        ),
        entry(
            201,
            "Dark Embrace"@,
            CardType::Power,
            CardRarity::Uncommon,
            2_000,
            EffectTree::DarkEmbrace { draw: 1 },
        ),
        entry(
            202,
            "Evolve"@,
            CardType::Power,
            CardRarity::Uncommon,
            1_000,
            EffectTree::Evolve { draw: 1 },
        ),
        entry(
            203,
            "Feel No Pain"@,
            CardType::Power,
            CardRarity::Uncommon,
            1_000,
            EffectTree::FeelNoPain { block: 30_000 },
        ),
        entry(
            204,
            "Fire Breathing"@,
            CardType::Power,
            CardRarity::Uncommon,
            1_000,
            EffectTree::FireBreathing { damage: 60_000 },
        ),
        entry(
            205,
            "Inflame"@,
            CardType::Power,
            CardRarity::Uncommon,
            1_000,
            EffectTree::Strength(2_000),
        ),
        entry(
            206,
            "Metallicize"@,
            CardType::Power,
            CardRarity::Uncommon,
            1_000,
            EffectTree::Metallicize(30_000),
        ),
        entry(
            207,
            "Rupture"@,
            CardType::Power,
            CardRarity::Uncommon,
            1_000,
            EffectTree::Rupture { strength: 1_000 },
        ),
        entry(208, "Barricade"@, CardType::Power, CardRarity::Rare, 3_000, EffectTree::Barricade),
        entry(
            209,
            "Berserk"@,
            CardType::Power,
            CardRarity::Rare,
            500,
            EffectTree::Combo(
                seq![
                    EffectTree::SelfVulnerable(2_000),
                    EffectTree::Accelerate { bonus_rate: 500, duration: 999_000 },
                ],
            ),
        ),
        entry(
            210,
            "Brutality"@,
            CardType::Power,
            CardRarity::Rare,
            500,
            EffectTree::Brutality { self_damage: 5_000, draw: 1, interval: 3_000 },
        ),
        entry(211, "Corruption"@, CardType::Power, CardRarity::Rare, 3_000, EffectTree::Corruption),
        entry(
            212,
            "Demon Form"@,
            CardType::Power,
            CardRarity::Rare,
            3_000,
            EffectTree::DemonForm(2_000),
        ),
        entry(
            213,
            "Juggernaut"@,
            CardType::Power,
            CardRarity::Rare,
            2_000,
            EffectTree::Juggernaut(50_000),
        ),
    ]
}

/// Register the power cards behind what `registry` holds.
pub fn register_power_cards(registry: &mut CardRegistry)
    ensures
        final(registry)@ == old(registry)@ + power_cards(),
{
    registry.register(
        card(
            200,
            "Combust",
            CardType::Power,
            CardRarity::Uncommon,
            1_000,
            CardEffect::Combust { self_damage: 5_000, enemy_damage: 25_000 },
        ),
    );
    registry.register(
        card(
            201,
            "Dark Embrace",
            CardType::Power,
            CardRarity::Uncommon,
            2_000,
            CardEffect::DarkEmbrace { draw: 1 },
        ),
    );
    registry.register(
        card(
            202,
            "Evolve",
            CardType::Power,
            CardRarity::Uncommon,
            1_000,
            CardEffect::Evolve { draw: 1 },
        ),
    );
    registry.register(
        card(
            203,
            "Feel No Pain",
            CardType::Power,
            CardRarity::Uncommon,
            1_000,
            CardEffect::FeelNoPain { block: 30_000 },
        ),
    );
    registry.register(
        card(
            204,
            "Fire Breathing",
            CardType::Power,
            CardRarity::Uncommon,
            1_000,
            CardEffect::FireBreathing { damage: 60_000 },
        ),
    );
    registry.register(
        card(
            205,
            "Inflame",
            CardType::Power,
            CardRarity::Uncommon,
            1_000,
            CardEffect::Strength(2_000),
        ),
    );
    registry.register(
        card(
            206,
            "Metallicize",
            CardType::Power,
            CardRarity::Uncommon,
            1_000,
            CardEffect::Metallicize(30_000),
        ),
    );
    registry.register(
        card(
            207,
            "Rupture",
            CardType::Power,
            CardRarity::Uncommon,
            1_000,
            CardEffect::Rupture { strength: 1_000 },
        ),
    );
    registry.register(
        card(208, "Barricade", CardType::Power, CardRarity::Rare, 3_000, CardEffect::Barricade),
    );
    registry.register(
        card(
            209,
            "Berserk",
            CardType::Power,
            CardRarity::Rare,
            500,
            combo2(
                CardEffect::SelfVulnerable(2_000),
                CardEffect::Accelerate { bonus_rate: 500, duration: 999_000 },
            ),
        ),
    );
    registry.register(
        card(
            210,
            "Brutality",
            CardType::Power,
            CardRarity::Rare,
            500,
            CardEffect::Brutality { self_damage: 5_000, draw: 1, interval: 3_000 },
        ),
    );
    registry.register(
        card(211, "Corruption", CardType::Power, CardRarity::Rare, 3_000, CardEffect::Corruption),
    );
    registry.register(
        card(
            212,
            "Demon Form",
            CardType::Power,
            CardRarity::Rare,
            3_000,
            CardEffect::DemonForm(2_000),
        ),
    );
    registry.register(
        card(
            213,
            "Juggernaut",
            CardType::Power,
            CardRarity::Rare,
            2_000,
            CardEffect::Juggernaut(50_000),
        ),
    );
    assert(registry@ =~= old(registry)@ + power_cards());
}

} // verus!
