//! The cards of the game, by kind, and what builds their definitions.

pub mod attack;
pub mod power;
pub mod skill;
pub mod status;

use vstd::prelude::*;
use crate::card::{
    lemma_combo_view, lemma_lookup, lemma_lookup_at, lookup, CardDef, CardDefView, CardEffect, CardId, CardRarity, CardRegistry, CardType,
    EffectTree,
};
use crate::cards::attack::{attack_cards, register_attack_cards};
use crate::cards::power::{power_cards, register_power_cards};
use crate::cards::skill::{register_skill_cards, skill_cards};
use crate::cards::status::{register_status_cards, status_cards};
use crate::fixed::Fixed;

verus! {

/// The definition of the card `id`.
pub open spec fn entry(
    id: u32,
    name: Seq<char>,
    card_type: CardType,
    rarity: CardRarity,
    cost: Fixed,
    effect: EffectTree,
) -> CardDefView {
    CardDefView { id: CardId(id), name, card_type, rarity, cost, effect }
}

/// Build the definition of the card `id`.
pub fn card(
    id: u32,
    name: &str,
    card_type: CardType,
    rarity: CardRarity,
    cost: Fixed,
    effect: CardEffect,
) -> (def: CardDef)
    ensures
        def@ == entry(id, name@, card_type, rarity, cost, effect@),
{
    CardDef { id: CardId(id), name: name.to_owned(), card_type, rarity, cost, effect }
}

/// The combo of two effects, in this order.
pub fn combo2(first: CardEffect, second: CardEffect) -> (combo: CardEffect)
    ensures
        combo@ == EffectTree::Combo(seq![first@, second@]),
{
    let mut parts: Vec<CardEffect> = Vec::new();
    parts.push(first);
    parts.push(second);
    proof {
        lemma_combo_view(parts);
        assert(CardEffect::Combo(parts)@->Combo_0 =~= seq![first@, second@]);
    }
    CardEffect::Combo(parts)
}

/// The combo of three effects, in this order.
pub fn combo3(first: CardEffect, second: CardEffect, third: CardEffect) -> (combo: CardEffect)
    ensures
        combo@ == EffectTree::Combo(seq![first@, second@, third@]),
{
    let mut parts: Vec<CardEffect> = Vec::new();
    parts.push(first);
    parts.push(second);
    parts.push(third);
    proof {
        lemma_combo_view(parts);
        assert(CardEffect::Combo(parts)@->Combo_0 =~= seq![first@, second@, third@]);
    }
    CardEffect::Combo(parts)
}

/// Every card of the game: attacks, skills, powers, status cards.
pub open spec fn all_cards() -> Seq<CardDefView> {
    attack_cards() + skill_cards() + power_cards() + status_cards()
}

/// Register every card of the game behind what `registry` holds.
pub fn setup_all_cards(registry: &mut CardRegistry)
    ensures
        final(registry)@ == old(registry)@ + all_cards(),
{
    register_attack_cards(registry);
    register_skill_cards(registry);
    register_power_cards(registry);
    register_status_cards(registry);
    assert(registry@ =~= old(registry)@ + all_cards());
}

/// The place of the card `id` among all cards: attacks carry the ids from 1,
/// skills from 100, powers from 200 and status cards from 300, each kind in
/// the order of its ids.
pub open spec fn place_of(id: CardId) -> Option<int> {
    if 1 <= id.0 <= 27 {
        Some(id.0 - 1)
    } else if 100 <= id.0 <= 127 {
        Some(id.0 - 100 + 27)
    } else if 200 <= id.0 <= 213 {
        Some(id.0 - 200 + 55)
    } else if 300 <= id.0 <= 304 {
        Some(id.0 - 300 + 69)
    } else {
        None
    }
}

/// The kind of card that an id stands for, by the range it lies in.
pub open spec fn kind_of(id: CardId) -> Option<CardType> {
    if 1 <= id.0 <= 99 {
        Some(CardType::Attack)
    } else if 100 <= id.0 <= 199 {
        Some(CardType::Skill)
    } else if 200 <= id.0 <= 299 {
        Some(CardType::Power)
    } else if 300 <= id.0 <= 399 {
        Some(CardType::Status)
    } else {
        None
    }
}

/// The attack cards carry the ids 1 to 27 in order, are attacks, and cost
/// nothing negative.
pub proof fn lemma_attack_cards()
    ensures
        attack_cards().len() == 27,
        forall|i: int|
            0 <= i < 27 ==> {
                &&& (#[trigger] attack_cards()[i]).id == CardId((i + 1) as u32)
                &&& attack_cards()[i].card_type == CardType::Attack
                &&& attack_cards()[i].cost >= 0
            },
{
}

/// The skill cards carry the ids 100 to 127 in order, are skills, and cost
/// nothing negative.
pub proof fn lemma_skill_cards()
    ensures
        skill_cards().len() == 28,
        forall|i: int|
            0 <= i < 28 ==> {
                &&& (#[trigger] skill_cards()[i]).id == CardId((i + 100) as u32)
                &&& skill_cards()[i].card_type == CardType::Skill
                &&& skill_cards()[i].cost >= 0
            },
{
}

/// The power cards carry the ids 200 to 213 in order, are powers, and cost
/// nothing negative.
pub proof fn lemma_power_cards()
    ensures
        power_cards().len() == 14,
        forall|i: int|
            0 <= i < 14 ==> {
                &&& (#[trigger] power_cards()[i]).id == CardId((i + 200) as u32)
                &&& power_cards()[i].card_type == CardType::Power
                &&& power_cards()[i].cost >= 0
            },
{
}

/// The status cards carry the ids 300 to 304 in order, are status cards, and
/// cost nothing negative.
pub proof fn lemma_status_cards()
    ensures
        status_cards().len() == 5,
        forall|i: int|
            0 <= i < 5 ==> {
                &&& (#[trigger] status_cards()[i]).id == CardId((i + 300) as u32)
                &&& status_cards()[i].card_type == CardType::Status
                &&& status_cards()[i].cost >= 0
            },
{
}

/// The id of the card at place `i` among all cards.
pub open spec fn id_at(i: int) -> CardId {
    if i < 27 {
        CardId((i + 1) as u32)
    } else if i < 55 {
        CardId((i - 27 + 100) as u32)
    } else if i < 69 {
        CardId((i - 55 + 200) as u32)
    } else {
        CardId((i - 69 + 300) as u32)
    }
}

/// All cards in their places: each carries the id of its place, is of the
/// kind that its id stands for, and costs nothing negative.
pub proof fn lemma_all_cards()
    ensures
        all_cards().len() == 74,
        forall|i: int|
            0 <= i < 74 ==> {
                &&& (#[trigger] all_cards()[i]).id == id_at(i)
                &&& Some(all_cards()[i].card_type) == kind_of(id_at(i))
                &&& all_cards()[i].cost >= 0
                &&& place_of(id_at(i)) == Some(i)
            },
{
    lemma_attack_cards();
    lemma_skill_cards();
    lemma_power_cards();
    lemma_status_cards();
    assert forall|i: int| 0 <= i < 74 implies {
        &&& (#[trigger] all_cards()[i]).id == id_at(i)
        &&& Some(all_cards()[i].card_type) == kind_of(id_at(i))
        &&& all_cards()[i].cost >= 0
        &&& place_of(id_at(i)) == Some(i)
    } by {
        if i < 27 {
            assert(all_cards()[i] == attack_cards()[i]);
        } else if i < 55 {
            assert(all_cards()[i] == skill_cards()[i - 27]);
        } else if i < 69 {
            assert(all_cards()[i] == power_cards()[i - 55]);
        } else {
            assert(all_cards()[i] == status_cards()[i - 69]);
        }
    }
}

/// Every card of the game is found under its id, and nothing is found under
/// any other id: no two cards share an id.
pub proof fn lemma_cards_are_found(id: CardId)
    ensures
        match place_of(id) {
            Some(place) => {
                &&& 0 <= place < 74
                &&& lookup(all_cards(), id) == Some(all_cards()[place])
                &&& all_cards()[place].id == id
                &&& Some(all_cards()[place].card_type) == kind_of(id)
            },
            None => lookup(all_cards(), id).is_none(),
        },
{
    lemma_all_cards();
    match place_of(id) {
        Some(place) => {
            assert(id_at(place) == id);
            assert forall|j: int| 0 <= j < place implies (#[trigger] all_cards()[j]).id != id by {
                assert(id_at(j) != id);
            }
            lemma_lookup_at(all_cards(), id, place);
        },
        None => {
            lemma_lookup(all_cards(), id);
            match lookup(all_cards(), id) {
                Some(def) => {
                    let k = choose|k: int| 0 <= k < all_cards().len() && all_cards()[k] == def;
                    assert(id_at(k) == id);
                },
                None => {},
            }
        },
    }
}

} // verus!
