//! Skill cards - defensive and utility cards.  Card ids 100-199.

use vstd::prelude::*;
use crate::card::{CardDefView, CardEffect, CardId, CardRarity, CardRegistry, CardType, EffectTree};
use crate::cards::{card, combo2, combo3, entry};
use crate::fixed::Fixed;

verus! {

/// The skill cards, in the order of registration.
pub open spec fn skill_cards() -> Seq<CardDefView> {
    seq![
        entry(
            100,
            "Defend"@,
            CardType::Skill,
            CardRarity::Starter,
            1_000,
            EffectTree::Block(50_000),
        ),
        entry(
            101,
            "Armaments"@,
            CardType::Skill,
            CardRarity::Common,
            1_000,
            EffectTree::Block(50_000),
        ),
        entry(102, "Flex"@, CardType::Skill, CardRarity::Common, 500, EffectTree::Strength(2_000)),
        entry(103, "Havoc"@, CardType::Skill, CardRarity::Common, 1_000, EffectTree::Draw(1)),
        entry(
            104,
            "Shrug It Off"@,
            CardType::Skill,
            CardRarity::Common,
            1_000,
            EffectTree::Combo(seq![EffectTree::Block(80_000), EffectTree::Draw(1)]),
        ),
        entry(
            105,
            "True Grit"@,
            CardType::Skill,
            CardRarity::Common,
            1_000,
            EffectTree::Block(70_000),
        ),
        entry(106, "Warcry"@, CardType::Skill, CardRarity::Common, 500, EffectTree::Draw(2)),
        entry(
            107,
            "Battle Trance"@,
            CardType::Skill,
            CardRarity::Uncommon,
            500,
            EffectTree::Draw(3),
        ),
        entry(
            108,
            "Bloodletting"@,
            CardType::Skill,
            CardRarity::Uncommon,
            500,
            EffectTree::Combo(
                seq![
                    EffectTree::Bloodletting(-30_000 as Fixed),
                    EffectTree::Accelerate { bonus_rate: 1_000, duration: 5_000 },
                ],
            ),
        ),
        entry(
            109,
            "Burning Pact"@,
            CardType::Skill,
            CardRarity::Uncommon,
            1_000,
            EffectTree::Draw(2),
        ),
        entry(
            110,
            "Disarm"@,
            CardType::Skill,
            CardRarity::Uncommon,
            1_000,
            EffectTree::Weak(2_000),
        ),
        entry(
            111,
            "Entrench"@,
            CardType::Skill,
            CardRarity::Uncommon,
            2_000,
            EffectTree::DoubleBlock,
        ),
        entry(
            112,
            "Flame Barrier"@,
            CardType::Skill,
            CardRarity::Uncommon,
            2_000,
            EffectTree::Combo(seq![EffectTree::Block(120_000), EffectTree::Thorns(4_000)]),
        ),
        entry(
            113,
            "Ghostly Armor"@,
            CardType::Skill,
            CardRarity::Uncommon,
            1_000,
            EffectTree::Block(100_000),
        ),
        entry(
            114,
            "Infernal Blade"@,
            CardType::Skill,
            CardRarity::Uncommon,
            1_000,
            EffectTree::Draw(2),
        ),
        entry(
            115,
            "Intimidate"@,
            CardType::Skill,
            CardRarity::Uncommon,
            500,
            EffectTree::Weak(1_000),
        ),
        entry(
            116,
            "Power Through"@,
            CardType::Skill,
            CardRarity::Uncommon,
            1_000,
            EffectTree::Combo(
                seq![
                    EffectTree::Block(150_000),
                    EffectTree::AddStatus(CardId(301)),
                    EffectTree::AddStatus(CardId(301)),
                ],
            ),
        ),
        entry(117, "Rage"@, CardType::Skill, CardRarity::Uncommon, 500, EffectTree::Rage(30_000)),
        entry(
            118,
            "Second Wind"@,
            CardType::Skill,
            CardRarity::Uncommon,
            1_000,
            EffectTree::Block(200_000),
        ),
        entry(
            119,
            "Seeing Red"@,
            CardType::Skill,
            CardRarity::Uncommon,
            1_000,
            EffectTree::Accelerate { bonus_rate: 1_500, duration: 4_000 },
        ),
        entry(
            120,
            "Sentinel"@,
            CardType::Skill,
            CardRarity::Uncommon,
            1_000,
            EffectTree::Block(50_000),
        ),
        entry(
            121,
            "Shockwave"@,
            CardType::Skill,
            CardRarity::Uncommon,
            2_000,
            EffectTree::Combo(seq![EffectTree::Weak(3_000), EffectTree::Vulnerable(3_000)]),
        ),
        entry(
            122,
            "Spot Weakness"@,
            CardType::Skill,
            CardRarity::Uncommon,
            1_000,
            EffectTree::Strength(3_000),
        ),
        entry(123, "Double Tap"@, CardType::Skill, CardRarity::Rare, 1_000, EffectTree::Draw(1)),
        entry(124, "Exhume"@, CardType::Skill, CardRarity::Rare, 1_000, EffectTree::Draw(2)),
        entry(
            125,
            "Impervious"@,
            CardType::Skill,
            CardRarity::Rare,
            2_000,
            EffectTree::Block(300_000),
        ),
        entry(
            126,
            "Limit Break"@,
            CardType::Skill,
            CardRarity::Rare,
            1_000,
            EffectTree::DoubleStrength,
        ),
        entry(
            127,
            "Offering"@,
            CardType::Skill,
            CardRarity::Rare,
            500,
            EffectTree::Combo(
                seq![
                    EffectTree::Bloodletting(-60_000 as Fixed),
                    EffectTree::Accelerate { bonus_rate: 2_000, duration: 5_000 },
                    EffectTree::Draw(3),
                ],
            ),
        ),
    ]
}

/// Register the skill cards behind what `registry` holds.
pub fn register_skill_cards(registry: &mut CardRegistry)
    ensures
        final(registry)@ == old(registry)@ + skill_cards(),
{
    registry.register(
        card(100, "Defend", CardType::Skill, CardRarity::Starter, 1_000, CardEffect::Block(50_000)),
    );
    registry.register(
        card(
            101,
            "Armaments",
            CardType::Skill,
            CardRarity::Common,
            1_000,
            CardEffect::Block(50_000),
        ),
    );
    registry.register(
        card(102, "Flex", CardType::Skill, CardRarity::Common, 500, CardEffect::Strength(2_000)),
    );
    registry.register(
        card(103, "Havoc", CardType::Skill, CardRarity::Common, 1_000, CardEffect::Draw(1)),
    );
    registry.register(
        card(
            104,
            "Shrug It Off",
            CardType::Skill,
            CardRarity::Common,
            1_000,
            combo2(CardEffect::Block(80_000), CardEffect::Draw(1)),
        ),
    );
    registry.register(
        card(
            105,
            "True Grit",
            CardType::Skill,
            CardRarity::Common,
            1_000,
            CardEffect::Block(70_000),
        ),
    );
    registry.register(
        card(106, "Warcry", CardType::Skill, CardRarity::Common, 500, CardEffect::Draw(2)),
    );
    registry.register(
        card(107, "Battle Trance", CardType::Skill, CardRarity::Uncommon, 500, CardEffect::Draw(3)),
    );
    registry.register(
        card(
            108,
            "Bloodletting",
            CardType::Skill,
            CardRarity::Uncommon,
            500,
            combo2(
                CardEffect::Bloodletting(-30_000),
                CardEffect::Accelerate { bonus_rate: 1_000, duration: 5_000 },
            ),
        ),
    );
    registry.register(
        card(
            109,
            "Burning Pact",
            CardType::Skill,
            CardRarity::Uncommon,
            1_000,
            CardEffect::Draw(2),
        ),
    );
    registry.register(
        card(110, "Disarm", CardType::Skill, CardRarity::Uncommon, 1_000, CardEffect::Weak(2_000)),
    );
    registry.register(
        card(
            111,
            "Entrench",
            CardType::Skill,
            CardRarity::Uncommon,
            2_000,
            CardEffect::DoubleBlock,
        ),
    );
    registry.register(
        card(
            112,
            "Flame Barrier",
            CardType::Skill,
            CardRarity::Uncommon,
            2_000,
            combo2(CardEffect::Block(120_000), CardEffect::Thorns(4_000)),
        ),
    );
    registry.register(
        card(
            113,
            "Ghostly Armor",
            CardType::Skill,
            CardRarity::Uncommon,
            1_000,
            CardEffect::Block(100_000),
        ),
    );
    registry.register(
        card(
            114,
            "Infernal Blade",
            CardType::Skill,
            CardRarity::Uncommon,
            1_000,
            CardEffect::Draw(2),
        ),
    );
    registry.register(
        card(
            115,
            "Intimidate",
            CardType::Skill,
            CardRarity::Uncommon,
            500,
            CardEffect::Weak(1_000),
        ),
    );
    registry.register(
        card(
            116,
            "Power Through",
            CardType::Skill,
            CardRarity::Uncommon,
            1_000,
            combo3(
                CardEffect::Block(150_000),
                CardEffect::AddStatus(CardId(301)),
                CardEffect::AddStatus(CardId(301)),
            ),
        ),
    );
    registry.register(
        card(117, "Rage", CardType::Skill, CardRarity::Uncommon, 500, CardEffect::Rage(30_000)),
    );
    registry.register(
        card(
            118,
            "Second Wind",
            CardType::Skill,
            CardRarity::Uncommon,
            1_000,
            CardEffect::Block(200_000),
        ),
    );
    registry.register(
        card(
            119,
            "Seeing Red",
            CardType::Skill,
            CardRarity::Uncommon,
            1_000,
            CardEffect::Accelerate { bonus_rate: 1_500, duration: 4_000 },
        ),
    );
    registry.register(
        card(
            120,
            "Sentinel",
            CardType::Skill,
            CardRarity::Uncommon,
            1_000,
            CardEffect::Block(50_000),
        ),
    );
    registry.register(
        card(
            121,
            "Shockwave",
            CardType::Skill,
            CardRarity::Uncommon,
            2_000,
            combo2(CardEffect::Weak(3_000), CardEffect::Vulnerable(3_000)),
        ),
    );
    registry.register(
        card(
            122,
            "Spot Weakness",
            CardType::Skill,
            CardRarity::Uncommon,
            1_000,
            CardEffect::Strength(3_000),
        ),
    );
    registry.register(
        card(123, "Double Tap", CardType::Skill, CardRarity::Rare, 1_000, CardEffect::Draw(1)),
    );
    registry.register(
        card(124, "Exhume", CardType::Skill, CardRarity::Rare, 1_000, CardEffect::Draw(2)),
    );
    registry.register(
        card(
            125,
            "Impervious",
            CardType::Skill,
            CardRarity::Rare,
            2_000,
            CardEffect::Block(300_000),
        ),
    );
    registry.register(
        card(
            126,
            "Limit Break",
            CardType::Skill,
            CardRarity::Rare,
            1_000,
            CardEffect::DoubleStrength,
        ),
    );
    registry.register(
        card(
            127,
            "Offering",
            CardType::Skill,
            CardRarity::Rare,
            500,
            combo3(
                CardEffect::Bloodletting(-60_000),
                CardEffect::Accelerate { bonus_rate: 2_000, duration: 5_000 },
                CardEffect::Draw(3),
            ),
        ),
    );
    assert(registry@ =~= old(registry)@ + skill_cards());
}

} // verus!
