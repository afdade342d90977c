//! Which cards a player owns.
//!
//! Card by card, a player owns at any time the cards owned at the start and
//! the status cards that the log has added for that player since: whatever
//! happens at a table only moves cards between the piles of their owner, but
//! for the addition of a status card, which puts that card on the discard
//! pile of the player who gets it.

use vstd::multiset::Multiset;
use vstd::prelude::*;
use crate::card::{CardDefView, CardId, EffectTree};
use crate::deck::{
    lemma_one_drawn_keeps_cards, lemma_played_keeps_cards, lemma_recycled_keeps_cards, PlayOutcome,
};
use crate::event::{status_cards_in, EventView};
use crate::fixed::{Fixed, Millis};
use crate::game::{CombatView, Frame};
use crate::health::DamageKind;
use crate::input_buffer::Requests;
use crate::player::{PlayerHandle, PlayerView, Side, Table};
use crate::rules::MAX_HAND_SIZE;
use crate::status::{BrutalityEffect, CombustEffect};

verus! {

impl Table {
    /// Whether the acting player owns the cards of `mine` and the opponent
    /// those of `theirs`, each with the status cards that the log has added for
    /// that player.
    pub open spec fn owns(self, mine: Multiset<CardId>, theirs: Multiset<CardId>) -> bool {
        &&& self.me.all_cards() == mine.add(status_cards_in(self.log, self.me.handle))
        &&& self.foe.all_cards() == theirs.add(status_cards_in(self.log, self.foe.handle))
    }

    /// Whether `after` holds the same two players as this table.
    pub open spec fn same_players(self, after: Table) -> bool {
        after.me.handle == self.me.handle && after.foe.handle == self.foe.handle
    }
}

/// What one more entry adds to the status cards that a log has added.
pub proof fn lemma_status_cards_push(log: Seq<EventView>, event: EventView, player: PlayerHandle)
    ensures
        status_cards_in(log.push(event), player) == match event {
            EventView::AddStatusCard(msg) => if msg.player == player {
                status_cards_in(log, player).insert(msg.card_id)
            } else {
                status_cards_in(log, player)
            },
            _ => status_cards_in(log, player),
        },
{
    assert(log.push(event).drop_last() =~= log);
}

/// The status cards added by two logs in a row are those of the one and those
/// of the other.
pub proof fn lemma_status_cards_concat(
    first: Seq<EventView>,
    second: Seq<EventView>,
    player: PlayerHandle,
)
    ensures
        status_cards_in(first + second, player) == status_cards_in(first, player).add(
            status_cards_in(second, player),
        ),
    decreases second.len(),
{
    let held = status_cards_in(first, player);
    if second.len() == 0 {
        assert(first + second =~= first);
        assert(held.add(Multiset::empty()) =~= held);
    } else {
        assert((first + second).drop_last() =~= first + second.drop_last());
        lemma_status_cards_concat(first, second.drop_last(), player);
        let shorter = status_cards_in(second.drop_last(), player);
        match second.last() {
            EventView::AddStatusCard(msg) => {
                assert(held.add(shorter.insert(msg.card_id)) =~= held.add(shorter).insert(
                    msg.card_id,
                ));
            },
            _ => {},
        }
    }
}

/// Writing anything but the addition of a status card to the log, and
/// changing the players without touching their piles, leaves what they own.
pub proof fn lemma_quiet_step_owns(
    t: Table,
    event: EventView,
    after: Table,
    mine: Multiset<CardId>,
    theirs: Multiset<CardId>,
)
    requires
        t.owns(mine, theirs),
        !(event is AddStatusCard),
        after.log == t.log.push(event),
        t.me.same_cards(after.me),
        t.foe.same_cards(after.foe),
    ensures
        after.owns(mine, theirs),
        t.same_players(after),
{
    lemma_status_cards_push(t.log, event, t.me.handle);
    lemma_status_cards_push(t.log, event, t.foe.handle);
}

/// A hit leaves what the players own.
pub proof fn lemma_damaged_owns(
    t: Table,
    target: Side,
    amount: Fixed,
    source: Option<Side>,
    kind: DamageKind,
    mine: Multiset<CardId>,
    theirs: Multiset<CardId>,
)
    requires
        t.owns(mine, theirs),
    ensures
        t.damaged(target, amount, source, kind).owns(mine, theirs),
        t.same_players(t.damaged(target, amount, source, kind)),
        t.damaged(target, amount, source, kind).me.hand == t.me.hand,
        t.damaged(target, amount, source, kind).me.powers == t.me.powers,
{
    let first = EventView::Damage(t.damage_message(target, amount, source, kind));
    let victim = t.player(target);
    let taken = t.logged(first).with_player(target, victim.hit(amount));
    lemma_quiet_step_owns(t, first, taken, mine, theirs);
    match (crate::health::reflected(victim.thorns, amount, kind), source) {
        (Some(back), Some(from)) => {
            let second = EventView::ThornsDamage(
                crate::health::ThornsDamageMessage {
                    target: taken.handle(from),
                    amount: back,
                    source: taken.handle(target),
                },
            );
            let told = taken.logged(second);
            lemma_quiet_step_owns(taken, second, told, mine, theirs);
            let third = EventView::Damage(
                taken.damage_message(from, back, Some(target), DamageKind::Thorns),
            );
            let hit = told.logged(third);
            lemma_quiet_step_owns(
                told,
                third,
                hit.with_player(from, hit.player(from).hit(back)),
                mine,
                theirs,
            );
        },
        _ => {},
    }
}

/// Healing, block, thorns, strength and the times of Vulnerable and Weak
/// leave what the players own.
pub proof fn lemma_gains_own(
    t: Table,
    target: Side,
    amount: Fixed,
    mine: Multiset<CardId>,
    theirs: Multiset<CardId>,
)
    requires
        t.owns(mine, theirs),
    ensures
        t.healed(target, amount).owns(mine, theirs),
        t.block_gained(target, amount).owns(mine, theirs),
        t.thorns_gained(target, amount).owns(mine, theirs),
        t.strength_applied(target, amount).owns(mine, theirs),
        t.vulnerable_applied(target, amount).owns(mine, theirs),
        t.weak_applied(target, amount).owns(mine, theirs),
        t.same_players(t.healed(target, amount)),
        t.same_players(t.block_gained(target, amount)),
        t.same_players(t.thorns_gained(target, amount)),
        t.same_players(t.strength_applied(target, amount)),
        t.same_players(t.vulnerable_applied(target, amount)),
        t.same_players(t.weak_applied(target, amount)),
        t.block_gained(target, amount).me.powers == t.me.powers,
{
    let handle = t.player(target).handle;
    lemma_quiet_step_owns(
        t,
        EventView::Heal(crate::health::HealMessage { target: handle, amount }),
        t.healed(target, amount),
        mine,
        theirs,
    );
    lemma_quiet_step_owns(
        t,
        EventView::GainBlock(crate::health::GainBlockMessage { target: handle, amount }),
        t.block_gained(target, amount),
        mine,
        theirs,
    );
    lemma_quiet_step_owns(
        t,
        EventView::GainThorns(crate::health::GainThornsMessage { target: handle, amount }),
        t.thorns_gained(target, amount),
        mine,
        theirs,
    );
    lemma_quiet_step_owns(
        t,
        EventView::ApplyStrength(crate::event::ApplyStrengthMessage { target: handle, amount }),
        t.strength_applied(target, amount),
        mine,
        theirs,
    );
    lemma_quiet_step_owns(
        t,
        EventView::ApplyVulnerable(
            crate::event::ApplyVulnerableMessage { target: handle, duration: amount },
        ),
        t.vulnerable_applied(target, amount),
        mine,
        theirs,
    );
    lemma_quiet_step_owns(
        t,
        EventView::ApplyWeak(crate::event::ApplyWeakMessage { target: handle, duration: amount }),
        t.weak_applied(target, amount),
        mine,
        theirs,
    );
}

/// A status card that is added is owned by the player who gets it, and the
/// log says so.
pub proof fn lemma_status_added_owns(
    t: Table,
    card: CardId,
    mine: Multiset<CardId>,
    theirs: Multiset<CardId>,
)
    requires
        t.owns(mine, theirs),
        t.me.handle != t.foe.handle,
    ensures
        t.status_added(card).owns(mine, theirs),
        t.same_players(t.status_added(card)),
{
    broadcast use vstd::seq_lib::group_to_multiset_ensures;

    let event = EventView::AddStatusCard(
        crate::event::AddStatusCardMessage { player: t.me.handle, card_id: card },
    );
    lemma_status_cards_push(t.log, event, t.me.handle);
    lemma_status_cards_push(t.log, event, t.foe.handle);
    let held = status_cards_in(t.log, t.me.handle);
    assert(t.me.discard.push(card).to_multiset() =~= t.me.discard.to_multiset().insert(card));
    assert(t.status_added(card).me.all_cards() =~= t.me.all_cards().insert(card));
    assert(mine.add(held.insert(card)) =~= mine.add(held).insert(card));
}

/// Drawing cards leaves what the players own.
pub proof fn lemma_cards_drawn_owns(
    t: Table,
    remaining: nat,
    registry: Seq<CardDefView>,
    mine: Multiset<CardId>,
    theirs: Multiset<CardId>,
)
    requires
        t.owns(mine, theirs),
    ensures
        t.cards_drawn(remaining, registry).owns(mine, theirs),
        t.same_players(t.cards_drawn(remaining, registry)),
    decreases MAX_HAND_SIZE - t.me.hand.len(),
{
    if !(remaining == 0 || t.me.hand.len() >= MAX_HAND_SIZE) {
        let ready = if t.me.needs_recycling() {
            let event = EventView::DeckReshuffled(
                crate::event::DeckReshuffledView {
                    player: t.me.handle,
                    deck: t.me.recycled().deck.cards,
                },
            );
            lemma_recycled_keeps_cards(t.me);
            lemma_status_cards_push(t.log, event, t.me.handle);
            lemma_status_cards_push(t.log, event, t.foe.handle);
            Table { me: t.me.recycled(), ..t }.logged(event)
        } else {
            t
        };
        assert(ready.owns(mine, theirs));
        match ready.me.deck.top() {
            None => {},
            Some(card) => {
                lemma_one_drawn_keeps_cards(ready.me);
                let held = Table { me: ready.me.one_drawn(), ..ready };
                assert(held.owns(mine, theirs));
                if crate::card::is_status(registry, card) {
                    let more = (remaining - 1 + held.me.evolve_bonus()) as nat;
                    match held.me.fire_damage() {
                        Some(damage) => {
                            lemma_damaged_owns(
                                held,
                                Side::Foe,
                                damage,
                                Some(Side::Me),
                                DamageKind::Power,
                                mine,
                                theirs,
                            );
                            let burnt = held.damaged(
                                Side::Foe,
                                damage,
                                Some(Side::Me),
                                DamageKind::Power,
                            );
                            lemma_cards_drawn_owns(burnt, more, registry, mine, theirs);
                        },
                        None => {
                            lemma_cards_drawn_owns(held, more, registry, mine, theirs);
                        },
                    }
                } else {
                    lemma_cards_drawn_owns(held, (remaining - 1) as nat, registry, mine, theirs);
                }
            },
        }
    }
}

/// A draw leaves what the players own.
pub proof fn lemma_draw_handled_owns(
    t: Table,
    count: usize,
    registry: Seq<CardDefView>,
    mine: Multiset<CardId>,
    theirs: Multiset<CardId>,
)
    requires
        t.owns(mine, theirs),
    ensures
        t.draw_handled(count, registry).owns(mine, theirs),
        t.same_players(t.draw_handled(count, registry)),
{
    let event = EventView::DrawCards(
        crate::event::DrawCardsMessage { player: t.me.handle, count },
    );
    lemma_quiet_step_owns(t, event, t.logged(event), mine, theirs);
    lemma_cards_drawn_owns(t.logged(event), count as nat, registry, mine, theirs);
}

/// Playing a card leaves what the players own: the card goes from the hand
/// under the deck, or out of the rotation, where its player still owns it.
pub proof fn lemma_play_handled_owns(
    t: Table,
    index: usize,
    registry: Seq<CardDefView>,
    mine: Multiset<CardId>,
    theirs: Multiset<CardId>,
)
    requires
        t.owns(mine, theirs),
    ensures
        t.play_handled(index, registry).owns(mine, theirs),
        t.same_players(t.play_handled(index, registry)),
{
    if index < t.me.hand.len() {
        let card = t.me.hand[index as int];
        lemma_played_keeps_cards(t.me, registry, index as int);
        let moved = Table { me: t.me.played(registry, index as int), ..t };
        assert(moved.owns(mine, theirs));
        let played = EventView::CardPlayed(
            crate::event::CardPlayedMessage { player: t.me.handle, card_id: card },
        );
        lemma_quiet_step_owns(moved, played, moved.logged(played), mine, theirs);
        let exhausted = EventView::CardExhausted(
            crate::event::CardExhaustedMessage { player: t.me.handle, card_id: card },
        );
        lemma_quiet_step_owns(
            moved.logged(played),
            exhausted,
            moved.logged(played).logged(exhausted),
            mine,
            theirs,
        );
    }
}

/// Several hits leave what the players own.
pub proof fn lemma_hits_dealt_own(
    t: Table,
    damage: Fixed,
    hits: nat,
    mine: Multiset<CardId>,
    theirs: Multiset<CardId>,
)
    requires
        t.owns(mine, theirs),
    ensures
        t.hits_dealt(damage, hits).owns(mine, theirs),
        t.same_players(t.hits_dealt(damage, hits)),
    decreases hits,
{
    if hits > 0 {
        lemma_hits_dealt_own(t, damage, (hits - 1) as nat, mine, theirs);
        lemma_damaged_owns(
            t.hits_dealt(damage, (hits - 1) as nat),
            Side::Foe,
            damage,
            Some(Side::Me),
            DamageKind::Attack,
            mine,
            theirs,
        );
    }
}

/// Playing an effect leaves what the players own, but for the status cards
/// that it adds, which the log counts.
pub proof fn lemma_effect_applied_owns(
    t: Table,
    effect: EffectTree,
    registry: Seq<CardDefView>,
    mine: Multiset<CardId>,
    theirs: Multiset<CardId>,
)
    requires
        t.owns(mine, theirs),
        t.me.handle != t.foe.handle,
    ensures
        t.effect_applied(effect, registry).owns(mine, theirs),
        t.same_players(t.effect_applied(effect, registry)),
    decreases effect,
{
    match effect {
        EffectTree::Damage(amount) => {
            lemma_damaged_owns(
                t,
                Side::Foe,
                t.attack_on_foe(amount),
                Some(Side::Me),
                DamageKind::Attack,
                mine,
                theirs,
            );
        },
        EffectTree::MultiHit { damage, hits } => {
            lemma_hits_dealt_own(t, t.attack_on_foe(damage), hits as nat, mine, theirs);
        },
        EffectTree::Heal(amount) => {
            lemma_gains_own(t, Side::Me, amount, mine, theirs);
        },
        EffectTree::Draw(count) => {
            lemma_draw_handled_owns(t, count as usize, registry, mine, theirs);
        },
        EffectTree::Block(amount) => {
            lemma_gains_own(t, Side::Me, amount, mine, theirs);
        },
        EffectTree::Thorns(amount) => {
            lemma_gains_own(t, Side::Me, amount, mine, theirs);
        },
        EffectTree::Strength(amount) => {
            lemma_gains_own(t, Side::Me, amount, mine, theirs);
        },
        EffectTree::Vulnerable(duration) => {
            lemma_gains_own(t, Side::Foe, duration, mine, theirs);
        },
        EffectTree::SelfVulnerable(duration) => {
            lemma_gains_own(t, Side::Me, duration, mine, theirs);
        },
        EffectTree::Weak(duration) => {
            lemma_gains_own(t, Side::Foe, duration, mine, theirs);
        },
        EffectTree::BodySlam => {
            lemma_damaged_owns(
                t,
                Side::Foe,
                t.attack_on_foe(t.me.block.current),
                Some(Side::Me),
                DamageKind::Attack,
                mine,
                theirs,
            );
        },
        EffectTree::Bloodletting(amount) => {
            if amount < 0 {
                lemma_damaged_owns(
                    t,
                    Side::Me,
                    crate::fixed::clamp(-amount) as Fixed,
                    Some(Side::Me),
                    DamageKind::Power,
                    mine,
                    theirs,
                );
            } else {
                lemma_gains_own(t, Side::Me, amount, mine, theirs);
            }
        },
        EffectTree::DoubleBlock => {
            lemma_gains_own(t, Side::Me, t.me.block.current, mine, theirs);
        },
        EffectTree::DoubleStrength => {
            lemma_gains_own(t, Side::Me, t.me.strength.amount, mine, theirs);
        },
        EffectTree::AddStatus(card) => {
            lemma_status_added_owns(t, card, mine, theirs);
        },
        EffectTree::Combo(parts) => {
            lemma_combo_applied_owns(t, parts, parts.len(), registry, mine, theirs);
        },
        _ => {},
    }
}

/// Playing the parts of a combo leaves what the players own, but for the
/// status cards added.
pub proof fn lemma_combo_applied_owns(
    t: Table,
    parts: Seq<EffectTree>,
    count: nat,
    registry: Seq<CardDefView>,
    mine: Multiset<CardId>,
    theirs: Multiset<CardId>,
)
    requires
        t.owns(mine, theirs),
        t.me.handle != t.foe.handle,
    ensures
        t.combo_applied(parts, count, registry).owns(mine, theirs),
        t.same_players(t.combo_applied(parts, count, registry)),
    decreases parts, count,
{
    if !(count == 0 || count > parts.len()) {
        lemma_combo_applied_owns(t, parts, (count - 1) as nat, registry, mine, theirs);
        lemma_effect_applied_owns(
            t.combo_applied(parts, (count - 1) as nat, registry),
            parts[count - 1],
            registry,
            mine,
            theirs,
        );
    }
}

/// A card that takes effect leaves what the players own, but for the status
/// cards added.
pub proof fn lemma_card_resolved_owns(
    t: Table,
    outcome: PlayOutcome,
    registry: Seq<CardDefView>,
    mine: Multiset<CardId>,
    theirs: Multiset<CardId>,
)
    requires
        t.owns(mine, theirs),
        t.me.handle != t.foe.handle,
    ensures
        t.card_resolved(outcome, registry).owns(mine, theirs),
        t.same_players(t.card_resolved(outcome, registry)),
{
    let played = match crate::card::lookup(registry, outcome.card_id) {
        Some(def) => {
            lemma_effect_applied_owns(t, def.effect, registry, mine, theirs);
            let applied = t.effect_applied(def.effect, registry);
            match applied.me.powers.rage {
                Some(rage) => {
                    lemma_gains_own(applied, Side::Me, rage.block_per_attack, mine, theirs);
                },
                None => {},
            }
            applied.rage_answered(def.card_type)
        },
        None => t,
    };
    assert(played.owns(mine, theirs) && t.same_players(played));
    if outcome.exhausted {
        let drawn = match played.me.powers.dark_embrace {
            Some(embrace) => if embrace.draw_on_exhaust > 0 {
                lemma_draw_handled_owns(
                    played,
                    embrace.draw_on_exhaust as usize,
                    registry,
                    mine,
                    theirs,
                );
                played.draw_handled(embrace.draw_on_exhaust as usize, registry)
            } else {
                played
            },
            None => played,
        };
        assert(drawn.owns(mine, theirs) && t.same_players(drawn));
        match drawn.me.powers.feel_no_pain {
            Some(pain) => {
                lemma_gains_own(drawn, Side::Me, pain.block_on_exhaust, mine, theirs);
            },
            None => {},
        }
    }
}

/// The periods of Combust leave what the players own.
pub proof fn lemma_combust_rounds_own(
    t: Table,
    combust: CombustEffect,
    rounds: nat,
    mine: Multiset<CardId>,
    theirs: Multiset<CardId>,
)
    requires
        t.owns(mine, theirs),
    ensures
        t.combust_rounds(combust, rounds).owns(mine, theirs),
        t.same_players(t.combust_rounds(combust, rounds)),
    decreases rounds,
{
    if rounds > 0 {
        lemma_combust_rounds_own(t, combust, (rounds - 1) as nat, mine, theirs);
        let before = t.combust_rounds(combust, (rounds - 1) as nat);
        lemma_damaged_owns(
            before,
            Side::Me,
            combust.self_damage,
            Some(Side::Me),
            DamageKind::Power,
            mine,
            theirs,
        );
        let own = if combust.self_damage > 0 {
            before.damaged(Side::Me, combust.self_damage, Some(Side::Me), DamageKind::Power)
        } else {
            before
        };
        lemma_damaged_owns(
            own,
            Side::Foe,
            combust.enemy_damage,
            Some(Side::Me),
            DamageKind::Power,
            mine,
            theirs,
        );
    }
}

/// The periods of Brutality leave what the players own.
pub proof fn lemma_brutality_rounds_own(
    t: Table,
    brutality: BrutalityEffect,
    rounds: nat,
    registry: Seq<CardDefView>,
    mine: Multiset<CardId>,
    theirs: Multiset<CardId>,
)
    requires
        t.owns(mine, theirs),
    ensures
        t.brutality_rounds(brutality, rounds, registry).owns(mine, theirs),
        t.same_players(t.brutality_rounds(brutality, rounds, registry)),
    decreases rounds,
{
    if rounds > 0 {
        lemma_brutality_rounds_own(t, brutality, (rounds - 1) as nat, registry, mine, theirs);
        let before = t.brutality_rounds(brutality, (rounds - 1) as nat, registry);
        lemma_damaged_owns(
            before,
            Side::Me,
            brutality.self_damage,
            Some(Side::Me),
            DamageKind::Power,
            mine,
            theirs,
        );
        let own = if brutality.self_damage > 0 {
            before.damaged(Side::Me, brutality.self_damage, Some(Side::Me), DamageKind::Power)
        } else {
            before
        };
        lemma_draw_handled_owns(own, brutality.draw as usize, registry, mine, theirs);
    }
}

/// The periodic powers leave what the players own.
pub proof fn lemma_powers_ticked_own(
    t: Table,
    delta: Millis,
    registry: Seq<CardDefView>,
    mine: Multiset<CardId>,
    theirs: Multiset<CardId>,
)
    requires
        t.owns(mine, theirs),
    ensures
        t.powers_ticked(delta, registry).owns(mine, theirs),
        t.same_players(t.powers_ticked(delta, registry)),
{
    let metal = t.metallicize_ticked(delta);
    match t.me.powers.metallicize {
        Some(m) => {
            lemma_gains_own(
                t,
                Side::Me,
                crate::fixed::accrued(m.block_per_second as int, delta as int) as Fixed,
                mine,
                theirs,
            );
        },
        None => {},
    }
    assert(metal.owns(mine, theirs) && t.same_players(metal));
    let burnt = metal.combust_ticked(delta);
    match metal.me.powers.combust {
        Some(combust) => {
            let timer = crate::fixed::clamp(combust.timer + delta) as Fixed;
            let wound = Table {
                me: PlayerView {
                    powers: crate::status::Powers {
                        combust: Some(
                            CombustEffect {
                                timer: crate::status::timer_after(
                                    timer,
                                    crate::rules::COMBUST_PERIOD,
                                ),
                                ..combust
                            },
                        ),
                        ..metal.me.powers
                    },
                    ..metal.me
                },
                ..metal
            };
            assert(wound.owns(mine, theirs));
            lemma_combust_rounds_own(
                wound,
                combust,
                crate::status::periods_in(timer, crate::rules::COMBUST_PERIOD),
                mine,
                theirs,
            );
        },
        None => {},
    }
    assert(burnt.owns(mine, theirs) && t.same_players(burnt));
    match burnt.me.powers.brutality {
        Some(brutality) => {
            if brutality.interval > 0 {
                let timer = crate::fixed::clamp(brutality.timer + delta) as Fixed;
                let wound = Table {
                    me: PlayerView {
                        powers: crate::status::Powers {
                            brutality: Some(
                                BrutalityEffect {
                                    timer: crate::status::timer_after(timer, brutality.interval),
                                    ..brutality
                                },
                            ),
                            ..burnt.me.powers
                        },
                        ..burnt.me
                    },
                    ..burnt
                };
                assert(wound.owns(mine, theirs));
                lemma_brutality_rounds_own(
                    wound,
                    brutality,
                    crate::status::periods_in(timer, brutality.interval),
                    registry,
                    mine,
                    theirs,
                );
            }
        },
        None => {},
    }
}

/// Reconciling one input word leaves what the players own.
pub proof fn lemma_input_owns(
    t: Table,
    flags: u16,
    registry: Seq<CardDefView>,
    mine: Multiset<CardId>,
    theirs: Multiset<CardId>,
)
    requires
        t.owns(mine, theirs),
    ensures
        t.input_reconciled(flags, registry).owns(mine, theirs),
        t.same_players(t.input_reconciled(flags, registry)),
{
    match t.me.requests(flags, registry).play {
        Some(msg) => {
            lemma_status_cards_push(t.log, EventView::PlayCard(msg), t.me.handle);
            lemma_status_cards_push(t.log, EventView::PlayCard(msg), t.foe.handle);
        },
        None => {},
    }
}

/// Carrying out one player's requests leaves what the players own.
pub proof fn lemma_deck_moved_owns(
    t: Table,
    requests: Requests,
    registry: Seq<CardDefView>,
    mine: Multiset<CardId>,
    theirs: Multiset<CardId>,
)
    requires
        t.owns(mine, theirs),
    ensures
        t.deck_moved(requests, registry).owns(mine, theirs),
        t.same_players(t.deck_moved(requests, registry)),
{
    let drawn = match requests.draw {
        Some(msg) => {
            lemma_draw_handled_owns(t, msg.count, registry, mine, theirs);
            t.draw_handled(msg.count, registry)
        },
        None => t,
    };
    match requests.play {
        Some(msg) => {
            lemma_play_handled_owns(drawn, msg.hand_index, registry, mine, theirs);
        },
        None => {},
    }
}

/// The check for the death of the acting player leaves what the players own.
pub proof fn lemma_death_checked_owns(t: Table, mine: Multiset<CardId>, theirs: Multiset<CardId>)
    requires
        t.owns(mine, theirs),
    ensures
        t.death_checked().owns(mine, theirs),
        t.same_players(t.death_checked()),
{
    let event = EventView::Death(crate::health::DeathMessage { entity: t.me.handle });
    lemma_quiet_step_owns(t, event, t.logged(event), mine, theirs);
}

/// A tick leaves what the players own, but for the status cards added.
pub proof fn lemma_tick_table_owns(
    combat: CombatView,
    frame: Frame,
    registry: Seq<CardDefView>,
)
    requires
        combat.wf(),
    ensures
        combat.tick_table(frame, registry).owns(
            combat.first.all_cards(),
            combat.second.all_cards(),
        ),
        combat.tick_table(frame, registry).me.handle == combat.first.handle,
        combat.tick_table(frame, registry).foe.handle == combat.second.handle,
{
    reveal(CombatView::tick_table);
    let mine = combat.first.all_cards();
    let theirs = combat.second.all_cards();
    let start = Table { me: combat.first, foe: combat.second, log: Seq::empty() };
    assert(mine.add(Multiset::empty()) =~= mine);
    assert(theirs.add(Multiset::empty()) =~= theirs);
    assert(start.owns(mine, theirs));
    if !combat.over() {
        let clocks = start.clocks_ticked(frame.delta);
        assert(clocks.owns(mine, theirs) && start.same_players(clocks));
        let requests = clocks.requests_made(frame, registry);
        lemma_input_owns(clocks, frame.first.flags, registry, mine, theirs);
        let one_input = clocks.input_reconciled(frame.first.flags, registry);
        lemma_input_owns(one_input.flipped(), frame.second.flags, registry, theirs, mine);
        let inputs = clocks.inputs_reconciled(frame, registry);
        assert(inputs.owns(mine, theirs) && start.same_players(inputs));
        lemma_deck_moved_owns(inputs, requests.0, registry, mine, theirs);
        let one_deck = inputs.deck_moved(requests.0, registry);
        lemma_deck_moved_owns(one_deck.flipped(), requests.1, registry, theirs, mine);
        let decks = inputs.decks_moved(requests, registry);
        assert(decks.owns(mine, theirs) && start.same_players(decks));
        let cards = inputs.cards_moved(requests, registry);
        match cards.0 {
            Some(outcome) => {
                lemma_card_resolved_owns(decks, outcome, registry, mine, theirs);
            },
            None => {},
        }
        let one_card = decks.effects_resolved(cards.0, registry);
        match cards.1 {
            Some(outcome) => {
                lemma_card_resolved_owns(one_card.flipped(), outcome, registry, theirs, mine);
            },
            None => {},
        }
        let effects = decks.cards_resolved(cards, registry);
        assert(effects.owns(mine, theirs) && start.same_players(effects));
        let statuses = effects.status_ticked(frame.delta).flipped().status_ticked(
            frame.delta,
        ).flipped();
        assert(statuses.owns(mine, theirs) && start.same_players(statuses));
        lemma_powers_ticked_own(statuses, frame.delta, registry, mine, theirs);
        let one_power = statuses.powers_ticked(frame.delta, registry);
        lemma_powers_ticked_own(one_power.flipped(), frame.delta, registry, theirs, mine);
        let powers = one_power.flipped().powers_ticked(frame.delta, registry).flipped();
        assert(powers.owns(mine, theirs) && start.same_players(powers));
        let decayed = powers.block_decayed(frame.delta).flipped().block_decayed(
            frame.delta,
        ).flipped();
        assert(decayed.owns(mine, theirs) && start.same_players(decayed));
        assert(decayed == effects.effects_ticked(frame.delta, registry));
        lemma_death_checked_owns(decayed, mine, theirs);
        let one_death = decayed.death_checked();
        lemma_death_checked_owns(one_death.flipped(), theirs, mine);
    }
}

/// Over one tick, card by card, each player comes to own the cards owned
/// before and the status cards that the tick's log adds for that player, and
/// no others.
pub proof fn lemma_tick_conserves_each_card(
    combat: CombatView,
    frame: Frame,
    registry: Seq<CardDefView>,
)
    requires
        combat.wf(),
    ensures
        combat.ticked(frame, registry).first.all_cards() == combat.first.all_cards().add(
            status_cards_in(combat.tick_table(frame, registry).log, combat.first.handle),
        ),
        combat.ticked(frame, registry).second.all_cards() == combat.second.all_cards().add(
            status_cards_in(combat.tick_table(frame, registry).log, combat.second.handle),
        ),
{
    lemma_tick_table_owns(combat, frame, registry);
}

/// Over any run of ticks, card by card, each player comes to own the cards
/// owned before and the status cards that the log of the run adds for that
/// player, and no others.
pub proof fn lemma_replay_conserves_each_card(
    combat: CombatView,
    frames: Seq<Frame>,
    registry: Seq<CardDefView>,
)
    requires
        combat.wf(),
    ensures
        combat.replayed(frames, registry).combat.wf(),
        combat.replayed(frames, registry).combat.first.handle == combat.first.handle,
        combat.replayed(frames, registry).combat.second.handle == combat.second.handle,
        combat.replayed(frames, registry).combat.first.all_cards() == combat.first.all_cards().add(
            status_cards_in(combat.replayed(frames, registry).log, combat.first.handle),
        ),
        combat.replayed(frames, registry).combat.second.all_cards()
            == combat.second.all_cards().add(
            status_cards_in(combat.replayed(frames, registry).log, combat.second.handle),
        ),
    decreases frames.len(),
{
    let mine = combat.first.all_cards();
    let theirs = combat.second.all_cards();
    if frames.len() == 0 {
        assert(mine.add(Multiset::empty()) =~= mine);
        assert(theirs.add(Multiset::empty()) =~= theirs);
    } else {
        lemma_replay_conserves_each_card(combat, frames.drop_last(), registry);
        let before = combat.replayed(frames.drop_last(), registry);
        lemma_tick_table_owns(before.combat, frames.last(), registry);
        let tick_log = before.combat.tick_table(frames.last(), registry).log;
        lemma_status_cards_concat(before.log, tick_log, combat.first.handle);
        lemma_status_cards_concat(before.log, tick_log, combat.second.handle);
        let a = status_cards_in(before.log, combat.first.handle);
        let b = status_cards_in(tick_log, combat.first.handle);
        assert(mine.add(a).add(b) =~= mine.add(a.add(b)));
        let c = status_cards_in(before.log, combat.second.handle);
        let d = status_cards_in(tick_log, combat.second.handle);
        assert(theirs.add(c).add(d) =~= theirs.add(c.add(d)));
    }
}

} // verus!
