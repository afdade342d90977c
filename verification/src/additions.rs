//! Where status cards come from.
//!
//! Only one effect writes the addition of a status card to the log: an effect
//! tree writes one addition for each of its `AddStatus` nodes, in the order of
//! the tree, each for the player who plays the effect.  Nothing else that
//! playing an effect does, draws included, writes one.

use vstd::prelude::*;
use crate::card::{CardDefView, CardId, EffectTree};
use crate::event::{status_cards_added, AddStatusCardMessage, EventView};
use crate::fixed::Fixed;
use crate::health::DamageKind;
use crate::invariants::lemma_effect_applied_keeps;
use crate::player::{PlayerHandle, Side, Table};
use crate::rules::MAX_HAND_SIZE;

verus! {

/// The status cards that `effect` adds, in the order of the tree.
pub open spec fn status_nodes(effect: EffectTree) -> Seq<CardId>
    decreases effect,
{
    match effect {
        EffectTree::AddStatus(card) => seq![card],
        EffectTree::Combo(parts) => status_nodes_of(parts, parts.len()),
        _ => Seq::empty(),
    }
}

/// The status cards that the first `count` of `parts` add, in order.
pub open spec fn status_nodes_of(parts: Seq<EffectTree>, count: nat) -> Seq<CardId>
    decreases parts, count,
{
    if count == 0 || count > parts.len() {
        Seq::empty()
    } else {
        status_nodes_of(parts, (count - 1) as nat) + status_nodes(parts[count - 1])
    }
}

/// The additions of status cards that `log` reports, in order.
pub open spec fn additions(log: Seq<EventView>) -> Seq<AddStatusCardMessage>
    decreases log.len(),
{
    if log.len() == 0 {
        Seq::empty()
    } else {
        match log.last() {
            EventView::AddStatusCard(msg) => additions(log.drop_last()).push(msg),
            _ => additions(log.drop_last()),
        }
    }
}

/// The additions of `cards` for `player`, in order.
pub open spec fn additions_for(player: PlayerHandle, cards: Seq<CardId>) -> Seq<
    AddStatusCardMessage,
> {
    cards.map_values(|card: CardId| AddStatusCardMessage { player, card_id: card })
}

impl Table {
    /// Whether `after` holds the same players as this table and reports the
    /// same additions of status cards.
    pub open spec fn adds_nothing_until(self, after: Table) -> bool {
        &&& after.me.handle == self.me.handle
        &&& after.foe.handle == self.foe.handle
        &&& additions(after.log) == additions(self.log)
    }
}

/// What one more entry adds to the additions that a log reports.
pub proof fn lemma_additions_push(log: Seq<EventView>, event: EventView)
    ensures
        additions(log.push(event)) == match event {
            EventView::AddStatusCard(msg) => additions(log).push(msg),
            _ => additions(log),
        },
{
    assert(log.push(event).drop_last() =~= log);
}

/// A hit adds no status card.
pub proof fn lemma_damaged_adds_nothing(
    t: Table,
    target: Side,
    amount: Fixed,
    source: Option<Side>,
    kind: DamageKind,
)
    ensures
        t.adds_nothing_until(t.damaged(target, amount, source, kind)),
        t.damaged(target, amount, source, kind).me.hand == t.me.hand,
        t.damaged(target, amount, source, kind).me.powers == t.me.powers,
{
    let first = EventView::Damage(t.damage_message(target, amount, source, kind));
    lemma_additions_push(t.log, first);
    let victim = t.player(target);
    let taken = t.logged(first).with_player(target, victim.hit(amount));
    match (crate::health::reflected(victim.thorns, amount, kind), source) {
        (Some(back), Some(from)) => {
            let second = EventView::ThornsDamage(
                crate::health::ThornsDamageMessage {
                    target: taken.handle(from),
                    amount: back,
                    source: taken.handle(target),
                },
            );
            lemma_additions_push(taken.log, second);
            let third = EventView::Damage(
                taken.damage_message(from, back, Some(target), DamageKind::Thorns),
            );
            lemma_additions_push(taken.log.push(second), third);
        },
        _ => {},
    }
}

/// Several hits add no status card.
pub proof fn lemma_hits_dealt_add_nothing(t: Table, damage: Fixed, hits: nat)
    ensures
        t.adds_nothing_until(t.hits_dealt(damage, hits)),
    decreases hits,
{
    if hits > 0 {
        lemma_hits_dealt_add_nothing(t, damage, (hits - 1) as nat);
        lemma_damaged_adds_nothing(
            t.hits_dealt(damage, (hits - 1) as nat),
            Side::Foe,
            damage,
            Some(Side::Me),
            DamageKind::Attack,
        );
    }
}

/// Healing, block, thorns, strength and the times of Vulnerable and Weak add
/// no status card.
pub proof fn lemma_gains_add_nothing(t: Table, target: Side, amount: Fixed)
    ensures
        t.adds_nothing_until(t.healed(target, amount)),
        t.adds_nothing_until(t.block_gained(target, amount)),
        t.adds_nothing_until(t.thorns_gained(target, amount)),
        t.adds_nothing_until(t.strength_applied(target, amount)),
        t.adds_nothing_until(t.vulnerable_applied(target, amount)),
        t.adds_nothing_until(t.weak_applied(target, amount)),
{
    let handle = t.player(target).handle;
    lemma_additions_push(
        t.log,
        EventView::Heal(crate::health::HealMessage { target: handle, amount }),
    );
    lemma_additions_push(
        t.log,
        EventView::GainBlock(crate::health::GainBlockMessage { target: handle, amount }),
    );
    lemma_additions_push(
        t.log,
        EventView::GainThorns(crate::health::GainThornsMessage { target: handle, amount }),
    );
    lemma_additions_push(
        t.log,
        EventView::ApplyStrength(crate::event::ApplyStrengthMessage { target: handle, amount }),
    );
    lemma_additions_push(
        t.log,
        EventView::ApplyVulnerable(
            crate::event::ApplyVulnerableMessage { target: handle, duration: amount },
        ),
    );
    lemma_additions_push(
        t.log,
        EventView::ApplyWeak(crate::event::ApplyWeakMessage { target: handle, duration: amount }),
    );
}

/// Drawing cards adds no status card, whatever is drawn.
pub proof fn lemma_cards_drawn_add_nothing(t: Table, remaining: nat, registry: Seq<CardDefView>)
    ensures
        t.adds_nothing_until(t.cards_drawn(remaining, registry)),
    decreases MAX_HAND_SIZE - t.me.hand.len(),
{
    if !(remaining == 0 || t.me.hand.len() >= MAX_HAND_SIZE) {
        let ready = if t.me.needs_recycling() {
            let event = EventView::DeckReshuffled(
                crate::event::DeckReshuffledView {
                    player: t.me.handle,
                    deck: t.me.recycled().deck.cards,
                },
            );
            lemma_additions_push(t.log, event);
            Table { me: t.me.recycled(), ..t }.logged(event)
        } else {
            t
        };
        assert(t.adds_nothing_until(ready));
        match ready.me.deck.top() {
            None => {},
            Some(card) => {
                let held = Table { me: ready.me.one_drawn(), ..ready };
                if crate::card::is_status(registry, card) {
                    let more = (remaining - 1 + held.me.evolve_bonus()) as nat;
                    match held.me.fire_damage() {
                        Some(damage) => {
                            lemma_damaged_adds_nothing(
                                held,
                                Side::Foe,
                                damage,
                                Some(Side::Me),
                                DamageKind::Power,
                            );
                            let burnt = held.damaged(
                                Side::Foe,
                                damage,
                                Some(Side::Me),
                                DamageKind::Power,
                            );
                            lemma_cards_drawn_add_nothing(burnt, more, registry);
                        },
                        None => {
                            lemma_cards_drawn_add_nothing(held, more, registry);
                        },
                    }
                } else {
                    lemma_cards_drawn_add_nothing(held, (remaining - 1) as nat, registry);
                }
            },
        }
    }
}

/// A draw adds no status card.
pub proof fn lemma_draw_handled_adds_nothing(t: Table, count: usize, registry: Seq<CardDefView>)
    ensures
        t.adds_nothing_until(t.draw_handled(count, registry)),
{
    let event = EventView::DrawCards(
        crate::event::DrawCardsMessage { player: t.me.handle, count },
    );
    lemma_additions_push(t.log, event);
    lemma_cards_drawn_add_nothing(t.logged(event), count as nat, registry);
}

/// An effect tree writes exactly one addition of a status card for each of
/// its `AddStatus` nodes, those inside combos counted: in the order of the
/// tree, each for the player who plays the effect and with the card of its
/// node.  No other effect writes one.
pub proof fn lemma_effect_adds_its_status_cards(
    t: Table,
    effect: EffectTree,
    registry: Seq<CardDefView>,
)
    ensures
        t.effect_applied(effect, registry).me.handle == t.me.handle,
        t.effect_applied(effect, registry).foe.handle == t.foe.handle,
        additions(t.effect_applied(effect, registry).log) == additions(t.log) + additions_for(
            t.me.handle,
            status_nodes(effect),
        ),
    decreases effect,
{
    let none = additions_for(t.me.handle, Seq::<CardId>::empty());
    assert(additions(t.log) + none =~= additions(t.log));
    match effect {
        EffectTree::Damage(amount) => {
            lemma_damaged_adds_nothing(
                t,
                Side::Foe,
                t.attack_on_foe(amount),
                Some(Side::Me),
                DamageKind::Attack,
            );
        },
        EffectTree::MultiHit { damage, hits } => {
            lemma_hits_dealt_add_nothing(t, t.attack_on_foe(damage), hits as nat);
        },
        EffectTree::Heal(amount) => {
            lemma_gains_add_nothing(t, Side::Me, amount);
        },
        EffectTree::Draw(count) => {
            lemma_draw_handled_adds_nothing(t, count as usize, registry);
        },
        EffectTree::Block(amount) => {
            lemma_gains_add_nothing(t, Side::Me, amount);
        },
        EffectTree::Thorns(amount) => {
            lemma_gains_add_nothing(t, Side::Me, amount);
        },
        EffectTree::Strength(amount) => {
            lemma_gains_add_nothing(t, Side::Me, amount);
        },
        EffectTree::Vulnerable(duration) => {
            lemma_gains_add_nothing(t, Side::Foe, duration);
        },
        EffectTree::SelfVulnerable(duration) => {
            lemma_gains_add_nothing(t, Side::Me, duration);
        },
        EffectTree::Weak(duration) => {
            lemma_gains_add_nothing(t, Side::Foe, duration);
        },
        EffectTree::BodySlam => {
            lemma_damaged_adds_nothing(
                t,
                Side::Foe,
                t.attack_on_foe(t.me.block.current),
                Some(Side::Me),
                DamageKind::Attack,
            );
        },
        EffectTree::Bloodletting(amount) => {
            if amount < 0 {
                lemma_damaged_adds_nothing(
                    t,
                    Side::Me,
                    crate::fixed::clamp(-amount) as Fixed,
                    Some(Side::Me),
                    DamageKind::Power,
                );
            } else {
                lemma_gains_add_nothing(t, Side::Me, amount);
            }
        },
        EffectTree::DoubleBlock => {
            lemma_gains_add_nothing(t, Side::Me, t.me.block.current);
        },
        EffectTree::DoubleStrength => {
            lemma_gains_add_nothing(t, Side::Me, t.me.strength.amount);
        },
        EffectTree::AddStatus(card) => {
            let msg = AddStatusCardMessage { player: t.me.handle, card_id: card };
            lemma_additions_push(t.log, EventView::AddStatusCard(msg));
            assert(additions_for(t.me.handle, seq![card]) =~= seq![msg]);
            assert(additions(t.log).push(msg) =~= additions(t.log) + seq![msg]);
        },
        EffectTree::Combo(parts) => {
            lemma_combo_adds_its_status_cards(t, parts, parts.len(), registry);
        },
        _ => {},
    }
}

/// The first `count` parts of a combo write the additions of their
/// `AddStatus` nodes, in order.
pub proof fn lemma_combo_adds_its_status_cards(
    t: Table,
    parts: Seq<EffectTree>,
    count: nat,
    registry: Seq<CardDefView>,
)
    ensures
        t.combo_applied(parts, count, registry).me.handle == t.me.handle,
        t.combo_applied(parts, count, registry).foe.handle == t.foe.handle,
        additions(t.combo_applied(parts, count, registry).log) == additions(t.log)
            + additions_for(t.me.handle, status_nodes_of(parts, count)),
    decreases parts, count,
{
    if count == 0 || count > parts.len() {
        assert(additions(t.log) + additions_for(t.me.handle, Seq::<CardId>::empty()) =~= additions(
            t.log,
        ));
    } else {
        lemma_combo_adds_its_status_cards(t, parts, (count - 1) as nat, registry);
        let before = t.combo_applied(parts, (count - 1) as nat, registry);
        lemma_effect_adds_its_status_cards(before, parts[count - 1], registry);
        let earlier = status_nodes_of(parts, (count - 1) as nat);
        let last = status_nodes(parts[count - 1]);
        assert(additions_for(t.me.handle, earlier + last) =~= additions_for(t.me.handle, earlier)
            + additions_for(t.me.handle, last));
        assert((additions(t.log) + additions_for(t.me.handle, earlier)) + additions_for(
            t.me.handle,
            last,
        ) =~= additions(t.log) + (additions_for(t.me.handle, earlier) + additions_for(
            t.me.handle,
            last,
        )));
    }
}

/// How many of `messages` are for `player`.
pub open spec fn count_for(messages: Seq<AddStatusCardMessage>, player: PlayerHandle) -> nat
    decreases messages.len(),
{
    if messages.len() == 0 {
        0
    } else if messages.last().player == player {
        count_for(messages.drop_last(), player) + 1
    } else {
        count_for(messages.drop_last(), player)
    }
}

/// The status cards that a log adds for a player are the additions that it
/// reports for that player.
pub proof fn lemma_added_are_additions(log: Seq<EventView>, player: PlayerHandle)
    ensures
        status_cards_added(log, player) == count_for(additions(log), player),
    decreases log.len(),
{
    if log.len() > 0 {
        lemma_added_are_additions(log.drop_last(), player);
        match log.last() {
            EventView::AddStatusCard(msg) => {
                assert(additions(log.drop_last()).push(msg).drop_last() =~= additions(
                    log.drop_last(),
                ));
            },
            _ => {},
        }
    }
}

/// Additions for one player behind other additions count for that player,
/// and for nobody else.
pub proof fn lemma_count_for_additions(
    before: Seq<AddStatusCardMessage>,
    owner: PlayerHandle,
    cards: Seq<CardId>,
    player: PlayerHandle,
)
    ensures
        count_for(before + additions_for(owner, cards), player) == count_for(before, player) + if owner
            == player {
            cards.len()
        } else {
            0
        },
    decreases cards.len(),
{
    if cards.len() == 0 {
        assert(before + additions_for(owner, cards) =~= before);
    } else {
        let whole = before + additions_for(owner, cards);
        assert(whole.drop_last() =~= before + additions_for(owner, cards.drop_last()));
        assert(whole.last().player == owner);
        lemma_count_for_additions(before, owner, cards.drop_last(), player);
    }
}

/// Playing an effect gives the player who plays it one card more for each
/// `AddStatus` node of the effect, and changes the number of cards that the
/// players own in no other way.
pub proof fn lemma_effect_grows_cards_by_its_status_nodes(
    t: Table,
    effect: EffectTree,
    registry: Seq<CardDefView>,
)
    requires
        t.me.handle != t.foe.handle,
    ensures
        t.effect_applied(effect, registry).me.card_count() == t.me.card_count() + status_nodes(
            effect,
        ).len(),
        t.effect_applied(effect, registry).foe.card_count() == t.foe.card_count(),
{
    let after = t.effect_applied(effect, registry);
    lemma_effect_applied_keeps(t, effect, registry);
    lemma_effect_adds_its_status_cards(t, effect, registry);
    lemma_added_are_additions(t.log, t.me.handle);
    lemma_added_are_additions(t.log, t.foe.handle);
    lemma_added_are_additions(after.log, t.me.handle);
    lemma_added_are_additions(after.log, t.foe.handle);
    lemma_count_for_additions(additions(t.log), t.me.handle, status_nodes(effect), t.me.handle);
    lemma_count_for_additions(additions(t.log), t.me.handle, status_nodes(effect), t.foe.handle);
}

} // verus!
