//! Attack cards - offensive cards that deal damage.  Card ids 1-99.

use vstd::prelude::*;
use crate::card::{CardDefView, CardEffect, CardId, CardRarity, CardRegistry, CardType, EffectTree};
use crate::cards::{card, combo2, combo3, entry};
use crate::fixed::Fixed;

verus! {

/// The attack cards, in the order of registration.
pub open spec fn attack_cards() -> Seq<CardDefView> {
    seq![
        entry(
            1,
            "Strike"@,
            CardType::Attack,
            CardRarity::Starter,
            1_000,
            EffectTree::Damage(60_000),
        ),
        entry(
            2,
            "Bash"@,
            CardType::Attack,
            CardRarity::Starter,
            2_000,
            EffectTree::Combo(seq![EffectTree::Damage(80_000), EffectTree::Vulnerable(2_000)]),
        ),
        entry(3, "Anger"@, CardType::Attack, CardRarity::Common, 500, EffectTree::Damage(60_000)),
        entry(
            4,
            "Cleave"@,
            CardType::Attack,
            CardRarity::Common,
            1_000,
            EffectTree::Damage(80_000),
        ),
        entry(
            5,
            "Clothesline"@,
            CardType::Attack,
            CardRarity::Common,
            2_000,
            EffectTree::Combo(seq![EffectTree::Damage(120_000), EffectTree::Weak(2_000)]),
        ),
        entry(
            6,
            "Headbutt"@,
            CardType::Attack,
            CardRarity::Common,
            1_000,
            EffectTree::Damage(90_000),
        ),
        entry(
            7,
            "Iron Wave"@,
            CardType::Attack,
            CardRarity::Common,
            1_000,
            EffectTree::Combo(seq![EffectTree::Damage(50_000), EffectTree::Block(50_000)]),
        ),
        entry(
            8,
            "Pommel Strike"@,
            CardType::Attack,
            CardRarity::Common,
            1_000,
            EffectTree::Combo(seq![EffectTree::Damage(90_000), EffectTree::Draw(1)]),
        ),
        entry(
            9,
            "Sword Boomerang"@,
            CardType::Attack,
            CardRarity::Common,
            1_000,
            EffectTree::MultiHit { damage: 30_000, hits: 3 },
        ),
        entry(
            10,
            "Thunder Clap"@,
            CardType::Attack,
            CardRarity::Common,
            1_000,
            EffectTree::Combo(seq![EffectTree::Damage(40_000), EffectTree::Vulnerable(1_000)]),
        ),
        entry(
            11,
            "Twin Strike"@,
            CardType::Attack,
            CardRarity::Common,
            1_000,
            EffectTree::MultiHit { damage: 50_000, hits: 2 },
        ),
        entry(
            12,
            "Wild Strike"@,
            CardType::Attack,
            CardRarity::Common,
            1_000,
            EffectTree::Combo(
                seq![EffectTree::Damage(120_000), EffectTree::AddStatus(CardId(301))],
            ),
        ),
        entry(
            13,
            "Body Slam"@,
            CardType::Attack,
            CardRarity::Uncommon,
            1_000,
            EffectTree::BodySlam,
        ),
        entry(
            14,
            "Carnage"@,
            CardType::Attack,
            CardRarity::Uncommon,
            2_000,
            EffectTree::Damage(200_000),
        ),
        entry(
            15,
            "Dropkick"@,
            CardType::Attack,
            CardRarity::Uncommon,
            1_000,
            EffectTree::Combo(
                seq![
                    EffectTree::Damage(50_000),
                    EffectTree::Draw(1),
                    EffectTree::Accelerate { bonus_rate: 500, duration: 2_000 },
                ],
            ),
        ),
        entry(
            16,
            "Hemokinesis"@,
            CardType::Attack,
            CardRarity::Uncommon,
            1_000,
            EffectTree::Combo(
                seq![EffectTree::Bloodletting(-20_000 as Fixed), EffectTree::Damage(150_000)],
            ),
        ),
        entry(
            17,
            "Pummel"@,
            CardType::Attack,
            CardRarity::Uncommon,
            1_000,
            EffectTree::MultiHit { damage: 20_000, hits: 4 },
        ),
        entry(
            18,
            "Rampage"@,
            CardType::Attack,
            CardRarity::Uncommon,
            1_000,
            EffectTree::Damage(80_000),
        ),
        entry(
            19,
            "Reckless Charge"@,
            CardType::Attack,
            CardRarity::Uncommon,
            500,
            EffectTree::Combo(seq![EffectTree::Damage(70_000), EffectTree::AddStatus(CardId(301))]),
        ),
        entry(
            20,
            "Searing Blow"@,
            CardType::Attack,
            CardRarity::Uncommon,
            2_000,
            EffectTree::Damage(120_000),
        ),
        entry(
            21,
            "Uppercut"@,
            CardType::Attack,
            CardRarity::Uncommon,
            2_000,
            EffectTree::Combo(
                seq![
                    EffectTree::Damage(130_000),
                    EffectTree::Weak(1_000),
                    EffectTree::Vulnerable(1_000),
                ],
            ),
        ),
        entry(
            22,
            "Whirlwind"@,
            CardType::Attack,
            CardRarity::Uncommon,
            3_000,
            EffectTree::MultiHit { damage: 50_000, hits: 3 },
        ),
        entry(
            23,
            "Bludgeon"@,
            CardType::Attack,
            CardRarity::Rare,
            3_000,
            EffectTree::Damage(320_000),
        ),
        entry(
            24,
            "Feed"@,
            CardType::Attack,
            CardRarity::Rare,
            1_000,
            EffectTree::Combo(seq![EffectTree::Damage(100_000), EffectTree::Heal(30_000)]),
        ),
        entry(
            25,
            "Fiend Fire"@,
            CardType::Attack,
            CardRarity::Rare,
            2_000,
            EffectTree::Damage(280_000),
        ),
        entry(
            26,
            "Immolate"@,
            CardType::Attack,
            CardRarity::Rare,
            2_000,
            EffectTree::Combo(
                seq![EffectTree::Damage(210_000), EffectTree::AddStatus(CardId(302))],
            ),
        ),
        entry(
            27,
            "Reaper"@,
            CardType::Attack,
            CardRarity::Rare,
            2_000,
            EffectTree::Combo(seq![EffectTree::Damage(40_000), EffectTree::Heal(40_000)]),
        ),
    ]
}

/// Register the attack cards behind what `registry` holds.
pub fn register_attack_cards(registry: &mut CardRegistry)
    ensures
        final(registry)@ == old(registry)@ + attack_cards(),
{
    registry.register(
        card(1, "Strike", CardType::Attack, CardRarity::Starter, 1_000, CardEffect::Damage(60_000)),
    );
    registry.register(
        card(
            2,
            "Bash",
            CardType::Attack,
            CardRarity::Starter,
            2_000,
            combo2(CardEffect::Damage(80_000), CardEffect::Vulnerable(2_000)),
        ),
    );
    registry.register(
        card(3, "Anger", CardType::Attack, CardRarity::Common, 500, CardEffect::Damage(60_000)),
    );
    registry.register(
        card(4, "Cleave", CardType::Attack, CardRarity::Common, 1_000, CardEffect::Damage(80_000)),
    );
    registry.register(
        card(
            5,
            "Clothesline",
            CardType::Attack,
            CardRarity::Common,
            2_000,
            combo2(CardEffect::Damage(120_000), CardEffect::Weak(2_000)),
        ),
    );
    registry.register(
        card(
            6,
            "Headbutt",
            CardType::Attack,
            CardRarity::Common,
            1_000,
            CardEffect::Damage(90_000),
        ),
    );
    registry.register(
        card(
            7,
            "Iron Wave",
            CardType::Attack,
            CardRarity::Common,
            1_000,
            combo2(CardEffect::Damage(50_000), CardEffect::Block(50_000)),
        ),
    );
    registry.register(
        card(
            8,
            "Pommel Strike",
            CardType::Attack,
            CardRarity::Common,
            1_000,
            combo2(CardEffect::Damage(90_000), CardEffect::Draw(1)),
        ),
    );
    registry.register(
        card(
            9,
            "Sword Boomerang",
            CardType::Attack,
            CardRarity::Common,
            1_000,
            CardEffect::MultiHit { damage: 30_000, hits: 3 },
        ),
    );
    registry.register(
        card(
            10,
            "Thunder Clap",
            CardType::Attack,
            CardRarity::Common,
            1_000,
            combo2(CardEffect::Damage(40_000), CardEffect::Vulnerable(1_000)),
        ),
    );
    registry.register(
        card(
            11,
            "Twin Strike",
            CardType::Attack,
            CardRarity::Common,
            1_000,
            CardEffect::MultiHit { damage: 50_000, hits: 2 },
        ),
    );
    registry.register(
        card(
            12,
            "Wild Strike",
            CardType::Attack,
            CardRarity::Common,
            1_000,
            combo2(CardEffect::Damage(120_000), CardEffect::AddStatus(CardId(301))),
        ),
    );
    registry.register(
        card(13, "Body Slam", CardType::Attack, CardRarity::Uncommon, 1_000, CardEffect::BodySlam),
    );
    registry.register(
        card(
            14,
            "Carnage",
            CardType::Attack,
            CardRarity::Uncommon,
            2_000,
            CardEffect::Damage(200_000),
        ),
    );
    registry.register(
        card(
            15,
            "Dropkick",
            CardType::Attack,
            CardRarity::Uncommon,
            1_000,
            combo3(
                CardEffect::Damage(50_000),
                CardEffect::Draw(1),
                CardEffect::Accelerate { bonus_rate: 500, duration: 2_000 },
            ),
        ),
    );
    registry.register(
        card(
            16,
            "Hemokinesis",
            CardType::Attack,
            CardRarity::Uncommon,
            1_000,
            combo2(CardEffect::Bloodletting(-20_000), CardEffect::Damage(150_000)),
        ),
    );
    registry.register(
        card(
            17,
            "Pummel",
            CardType::Attack,
            CardRarity::Uncommon,
            1_000,
            CardEffect::MultiHit { damage: 20_000, hits: 4 },
        ),
    );
    registry.register(
        card(
            18,
            "Rampage",
            CardType::Attack,
            CardRarity::Uncommon,
            1_000,
            CardEffect::Damage(80_000),
        ),
    );
    registry.register(
        card(
            19,
            "Reckless Charge",
            CardType::Attack,
            CardRarity::Uncommon,
            500,
            combo2(CardEffect::Damage(70_000), CardEffect::AddStatus(CardId(301))),
        ),
    );
    registry.register(
        card(
            20,
            "Searing Blow",
            CardType::Attack,
            CardRarity::Uncommon,
            2_000,
            CardEffect::Damage(120_000),
        ),
    );
    registry.register(
        card(
            21,
            "Uppercut",
            CardType::Attack,
            CardRarity::Uncommon,
            2_000,
            combo3(
                CardEffect::Damage(130_000),
                CardEffect::Weak(1_000),
                CardEffect::Vulnerable(1_000),
            ),
        ),
    );
    registry.register(
        card(
            22,
            "Whirlwind",
            CardType::Attack,
            CardRarity::Uncommon,
            3_000,
            CardEffect::MultiHit { damage: 50_000, hits: 3 },
        ),
    );
    registry.register(
        card(
            23,
            "Bludgeon",
            CardType::Attack,
            CardRarity::Rare,
            3_000,
            CardEffect::Damage(320_000),
        ),
    );
    registry.register(
        card(
            24,
            "Feed",
            CardType::Attack,
            CardRarity::Rare,
            1_000,
            combo2(CardEffect::Damage(100_000), CardEffect::Heal(30_000)),
        ),
    );
    registry.register(
        card(
            25,
            "Fiend Fire",
            CardType::Attack,
            CardRarity::Rare,
            2_000,
            CardEffect::Damage(280_000),
        ),
    );
    registry.register(
        card(
            26,
            "Immolate",
            CardType::Attack,
            CardRarity::Rare,
            2_000,
            combo2(CardEffect::Damage(210_000), CardEffect::AddStatus(CardId(302))),
        ),
    );
    registry.register(
        card(
            27,
            "Reaper",
            CardType::Attack,
            CardRarity::Rare,
            2_000,
            combo2(CardEffect::Damage(40_000), CardEffect::Heal(40_000)),
        ),
    );
    assert(registry@ =~= old(registry)@ + attack_cards());
}

} // verus!
