//! Status cards - wounds, burns and other dead weight.  Card ids 300-399.

use vstd::prelude::*;
use crate::card::{CardDefView, CardEffect, CardRarity, CardRegistry, CardType, EffectTree};
use crate::cards::{card, entry};
use crate::fixed::Fixed;

verus! {

/// The status cards, in the order of registration.
pub open spec fn status_cards() -> Seq<CardDefView> {
    seq![
        entry(300, "Dazed"@, CardType::Status, CardRarity::Special, 999_000, EffectTree::Exhaust),
        entry(301, "Wound"@, CardType::Status, CardRarity::Special, 999_000, EffectTree::Exhaust),
        entry(
            302,
            "Burn"@,
            CardType::Status,
            CardRarity::Special,
            999_000,
            EffectTree::Bloodletting(-20_000 as Fixed),
        ),
        entry(303, "Slimed"@, CardType::Status, CardRarity::Special, 1_000, EffectTree::Exhaust),
        entry(304, "Void"@, CardType::Status, CardRarity::Special, 999_000, EffectTree::Exhaust),
    ]
}

/// Register the status cards behind what `registry` holds.
pub fn register_status_cards(registry: &mut CardRegistry)
    ensures
        final(registry)@ == old(registry)@ + status_cards(),
{
    registry.register(
        card(300, "Dazed", CardType::Status, CardRarity::Special, 999_000, CardEffect::Exhaust),
    );
    registry.register(
        card(301, "Wound", CardType::Status, CardRarity::Special, 999_000, CardEffect::Exhaust),
    );
    registry.register(
        card(
            302,
            "Burn",
            CardType::Status,
            CardRarity::Special,
            999_000,
            CardEffect::Bloodletting(-20_000),
        ),
    );
    registry.register(
        card(303, "Slimed", CardType::Status, CardRarity::Special, 1_000, CardEffect::Exhaust),
    );
    registry.register(
        card(304, "Void", CardType::Status, CardRarity::Special, 999_000, CardEffect::Exhaust),
    );
    assert(registry@ =~= old(registry)@ + status_cards());
}

} // verus!
