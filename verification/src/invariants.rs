//! What every step of the game keeps.
//!
//! Cards are neither made nor lost: whatever happens at a table, the number
//! of cards that a player owns (deck, hand, discard pile and what has left the
//! rotation) changes only when a status card is added to the discard pile, and
//! then by one for each such card that the log reports for the player.
//!
//! Card by card, too, a draw and a play only move cards between the piles of
//! the player who draws or plays.
//!
//! And players stay sound: health stays between zero and its maximum, block,
//! thorns and the times of Vulnerable and Weak stay at or above zero, and the
//! hand stays within its ten slots.

use vstd::prelude::*;
use crate::card::{CardDefView, CardId, EffectTree};
use crate::deck::{lemma_shuffle_permutes, lemma_swap_remove_takes_one, PlayOutcome};
use crate::event::{status_cards_added, EventView};
use crate::fixed::{Fixed, Millis};
use crate::game::{CombatView, Frame};
use crate::health::DamageKind;
use crate::input_buffer::Requests;
use crate::player::{PlayerHandle, PlayerView, Side, Table};
use crate::rules::MAX_HAND_SIZE;
use crate::status::{BrutalityEffect, CombustEffect};

verus! {

impl Table {
    /// The cards that the player on `side` owns, less the status cards that
    /// the log has added for that player.
    pub open spec fn balance(self, side: Side) -> int {
        self.player(side).card_count() - status_cards_added(self.log, self.handle(side))
    }

    /// Whether `after` holds the same players as this table, each with the
    /// same balance of cards, and sound if they were.
    pub open spec fn kept_by(self, after: Table) -> bool {
        &&& after.me.handle == self.me.handle
        &&& after.foe.handle == self.foe.handle
        &&& after.balance(Side::Me) == self.balance(Side::Me)
        &&& after.balance(Side::Foe) == self.balance(Side::Foe)
        &&& self.me.sound() ==> after.me.sound()
        &&& self.foe.sound() ==> after.foe.sound()
    }
}

impl PlayerView {
    /// Whether the player's numbers are where they belong: health between
    /// zero and its maximum, nothing negative among block, thorns and the times
    /// of Vulnerable and Weak, and no more cards in hand than the hand has
    /// slots.
    pub open spec fn sound(self) -> bool {
        &&& self.health.wf()
        &&& self.block.current >= 0
        &&& self.thorns.damage >= 0
        &&& self.vulnerable.duration >= 0
        &&& self.weak.duration >= 0
        &&& self.hand.len() <= MAX_HAND_SIZE
    }

    /// Whether `other` is the same player with the same piles, card for
    /// card and in the same order.
    pub open spec fn same_cards(self, other: PlayerView) -> bool {
        &&& other.handle == self.handle
        &&& other.deck.cards == self.deck.cards
        &&& other.hand == self.hand
        &&& other.discard == self.discard
        &&& other.exhausted == self.exhausted
    }

    /// Whether `other` is the same player with piles of the same sizes.
    pub open spec fn same_piles(self, other: PlayerView) -> bool {
        &&& other.handle == self.handle
        &&& other.deck.cards.len() == self.deck.cards.len()
        &&& other.hand.len() == self.hand.len()
        &&& other.discard.len() == self.discard.len()
        &&& other.exhausted.len() == self.exhausted.len()
    }
}

/// What one more entry adds to the count of status cards added.
pub proof fn lemma_added_push(log: Seq<EventView>, event: EventView, player: PlayerHandle)
    ensures
        status_cards_added(log.push(event), player) == status_cards_added(log, player) + match event {
            EventView::AddStatusCard(msg) => if msg.player == player {
                1nat
            } else {
                0nat
            },
            _ => 0nat,
        },
{
    assert(log.push(event).drop_last() =~= log);
}

/// The status cards added by two logs in a row are those of the one and those
/// of the other.
pub proof fn lemma_added_concat(first: Seq<EventView>, second: Seq<EventView>, player: PlayerHandle)
    ensures
        status_cards_added(first + second, player) == status_cards_added(first, player)
            + status_cards_added(second, player),
    decreases second.len(),
{
    if second.len() == 0 {
        assert(first + second =~= first);
    } else {
        assert((first + second).drop_last() =~= first + second.drop_last());
        lemma_added_concat(first, second.drop_last(), player);
    }
}

/// Logging anything but the addition of a status card keeps the table.
pub proof fn lemma_logged_keeps(t: Table, event: EventView)
    requires
        !(event is AddStatusCard),
    ensures
        t.kept_by(t.logged(event)),
{
    lemma_added_push(t.log, event, t.me.handle);
    lemma_added_push(t.log, event, t.foe.handle);
}

/// A hit keeps the table.
pub proof fn lemma_damaged_keeps(
    t: Table,
    target: Side,
    amount: Fixed,
    source: Option<Side>,
    kind: DamageKind,
)
    ensures
        t.kept_by(t.damaged(target, amount, source, kind)),
        t.damaged(target, amount, source, kind).me.same_piles(t.me),
        t.damaged(target, amount, source, kind).foe.same_piles(t.foe),
        t.damaged(target, amount, source, kind).me.powers == t.me.powers,
        t.damaged(target, amount, source, kind).foe.powers == t.foe.powers,
{
    let first = EventView::Damage(t.damage_message(target, amount, source, kind));
    lemma_logged_keeps(t, first);
    let victim = t.player(target);
    let taken = t.logged(first).with_player(target, victim.hit(amount));
    match (crate::health::reflected(victim.thorns, amount, kind), source) {
        (Some(back), Some(from)) => {
            let second = EventView::ThornsDamage(
                crate::health::ThornsDamageMessage {
                    target: taken.handle(from),
                    amount: back,
                    source: taken.handle(target),
                },
            );
            lemma_logged_keeps(taken, second);
            let third = EventView::Damage(
                taken.damage_message(from, back, Some(target), DamageKind::Thorns),
            );
            lemma_logged_keeps(taken.logged(second), third);
        },
        _ => {},
    }
}

/// Healing keeps the table.
pub proof fn lemma_healed_keeps(t: Table, target: Side, amount: Fixed)
    ensures
        t.kept_by(t.healed(target, amount)),
{
    lemma_logged_keeps(
        t,
        EventView::Heal(crate::health::HealMessage { target: t.player(target).handle, amount }),
    );
}

/// Gaining block keeps the table.
pub proof fn lemma_block_gained_keeps(t: Table, target: Side, amount: Fixed)
    ensures
        t.kept_by(t.block_gained(target, amount)),
        t.block_gained(target, amount).me.same_piles(t.me),
        t.block_gained(target, amount).me.powers == t.me.powers,
{
    lemma_logged_keeps(
        t,
        EventView::GainBlock(
            crate::health::GainBlockMessage { target: t.player(target).handle, amount },
        ),
    );
}

/// Gaining thorns keeps the table.
pub proof fn lemma_thorns_gained_keeps(t: Table, target: Side, amount: Fixed)
    ensures
        t.kept_by(t.thorns_gained(target, amount)),
{
    lemma_logged_keeps(
        t,
        EventView::GainThorns(
            crate::health::GainThornsMessage { target: t.player(target).handle, amount },
        ),
    );
}

/// Gaining strength keeps the table.
pub proof fn lemma_strength_applied_keeps(t: Table, target: Side, amount: Fixed)
    ensures
        t.kept_by(t.strength_applied(target, amount)),
{
    lemma_logged_keeps(
        t,
        EventView::ApplyStrength(
            crate::event::ApplyStrengthMessage { target: t.player(target).handle, amount },
        ),
    );
}

/// Becoming vulnerable keeps the table.
pub proof fn lemma_vulnerable_applied_keeps(t: Table, target: Side, duration: Fixed)
    ensures
        t.kept_by(t.vulnerable_applied(target, duration)),
{
    lemma_logged_keeps(
        t,
        EventView::ApplyVulnerable(
            crate::event::ApplyVulnerableMessage { target: t.player(target).handle, duration },
        ),
    );
}

/// Becoming weak keeps the table.
pub proof fn lemma_weak_applied_keeps(t: Table, target: Side, duration: Fixed)
    ensures
        t.kept_by(t.weak_applied(target, duration)),
{
    lemma_logged_keeps(
        t,
        EventView::ApplyWeak(
            crate::event::ApplyWeakMessage { target: t.player(target).handle, duration },
        ),
    );
}

/// A status card that is added is counted for the player who gets it, and
/// for nobody else.
pub proof fn lemma_status_added_keeps(t: Table, card: CardId)
    requires
        t.me.handle != t.foe.handle,
    ensures
        t.kept_by(t.status_added(card)),
        t.status_added(card).me.card_count() == t.me.card_count() + 1,
{
    let event = EventView::AddStatusCard(
        crate::event::AddStatusCardMessage { player: t.me.handle, card_id: card },
    );
    lemma_added_push(t.log, event, t.me.handle);
    lemma_added_push(t.log, event, t.foe.handle);
}

/// Drawing keeps the table: what leaves the deck reaches the hand, and a
/// discard pile that is recycled goes into the deck whole.
pub proof fn lemma_cards_drawn_keeps(t: Table, remaining: nat, registry: Seq<CardDefView>)
    ensures
        t.kept_by(t.cards_drawn(remaining, registry)),
    decreases MAX_HAND_SIZE - t.me.hand.len(),
{
    if !(remaining == 0 || t.me.hand.len() >= MAX_HAND_SIZE) {
        let ready = if t.me.needs_recycling() {
            let event = EventView::DeckReshuffled(
                crate::event::DeckReshuffledView {
                    player: t.me.handle,
                    deck: t.me.recycled().deck.cards,
                },
            );
            let filled = t.me.deck.with_cards(t.me.discard);
            lemma_shuffle_permutes(filled, filled.cards.len() - 1);
            let recycled = Table { me: t.me.recycled(), ..t };
            lemma_logged_keeps(recycled, event);
            recycled.logged(event)
        } else {
            t
        };
        assert(t.kept_by(ready));
        match ready.me.deck.top() {
            None => {},
            Some(card) => {
                lemma_swap_remove_takes_one(ready.me.deck.cards, ready.me.deck.draw_index());
                let held = Table { me: ready.me.one_drawn(), ..ready };
                assert(t.kept_by(held));
                if crate::card::is_status(registry, card) {
                    let more = (remaining - 1 + held.me.evolve_bonus()) as nat;
                    match held.me.fire_damage() {
                        Some(damage) => {
                            lemma_damaged_keeps(
                                held,
                                Side::Foe,
                                damage,
                                Some(Side::Me),
                                DamageKind::Power,
                            );
                            let burnt = held.damaged(
                                Side::Foe,
                                damage,
                                Some(Side::Me),
                                DamageKind::Power,
                            );
                            lemma_cards_drawn_keeps(burnt, more, registry);
                        },
                        None => {
                            lemma_cards_drawn_keeps(held, more, registry);
                        },
                    }
                } else {
                    lemma_cards_drawn_keeps(held, (remaining - 1) as nat, registry);
                }
            },
        }
    }
}

/// A draw request keeps the table.
pub proof fn lemma_draw_handled_keeps(t: Table, count: usize, registry: Seq<CardDefView>)
    ensures
        t.kept_by(t.draw_handled(count, registry)),
{
    let event = EventView::DrawCards(
        crate::event::DrawCardsMessage { player: t.me.handle, count },
    );
    lemma_logged_keeps(t, event);
    lemma_cards_drawn_keeps(t.logged(event), count as nat, registry);
}

/// Playing a card keeps the table: the card goes from the hand under the
/// deck, or out of the rotation, where it still counts.
pub proof fn lemma_play_handled_keeps(t: Table, index: usize, registry: Seq<CardDefView>)
    ensures
        t.kept_by(t.play_handled(index, registry)),
{
    if index < t.me.hand.len() {
        let card = t.me.hand[index as int];
        let moved_player = Table { me: t.me.played(registry, index as int), ..t };
        let played = EventView::CardPlayed(
            crate::event::CardPlayedMessage { player: t.me.handle, card_id: card },
        );
        lemma_logged_keeps(moved_player, played);
        lemma_logged_keeps(
            moved_player.logged(played),
            EventView::CardExhausted(
                crate::event::CardExhaustedMessage { player: t.me.handle, card_id: card },
            ),
        );
    }
}

/// Several hits keep the table.
pub proof fn lemma_hits_dealt_keeps(t: Table, damage: Fixed, hits: nat)
    ensures
        t.kept_by(t.hits_dealt(damage, hits)),
    decreases hits,
{
    if hits > 0 {
        lemma_hits_dealt_keeps(t, damage, (hits - 1) as nat);
        lemma_damaged_keeps(
            t.hits_dealt(damage, (hits - 1) as nat),
            Side::Foe,
            damage,
            Some(Side::Me),
            DamageKind::Attack,
        );
    }
}

/// Playing an effect keeps the table: only the addition of a status card
/// changes what a player owns, and the log counts it.
pub proof fn lemma_effect_applied_keeps(
    t: Table,
    effect: EffectTree,
    registry: Seq<CardDefView>,
)
    requires
        t.me.handle != t.foe.handle,
    ensures
        t.kept_by(t.effect_applied(effect, registry)),
    decreases effect,
{
    match effect {
        EffectTree::Damage(amount) => {
            lemma_damaged_keeps(
                t,
                Side::Foe,
                t.attack_on_foe(amount),
                Some(Side::Me),
                DamageKind::Attack,
            );
        },
        EffectTree::MultiHit { damage, hits } => {
            lemma_hits_dealt_keeps(t, t.attack_on_foe(damage), hits as nat);
        },
        EffectTree::Heal(amount) => {
            lemma_healed_keeps(t, Side::Me, amount);
        },
        EffectTree::Draw(count) => {
            lemma_draw_handled_keeps(t, count as usize, registry);
        },
        EffectTree::Block(amount) => {
            lemma_block_gained_keeps(t, Side::Me, amount);
        },
        EffectTree::Thorns(amount) => {
            lemma_thorns_gained_keeps(t, Side::Me, amount);
        },
        EffectTree::Strength(amount) => {
            lemma_strength_applied_keeps(t, Side::Me, amount);
        },
        EffectTree::Vulnerable(duration) => {
            lemma_vulnerable_applied_keeps(t, Side::Foe, duration);
        },
        EffectTree::SelfVulnerable(duration) => {
            lemma_vulnerable_applied_keeps(t, Side::Me, duration);
        },
        EffectTree::Weak(duration) => {
            lemma_weak_applied_keeps(t, Side::Foe, duration);
        },
        EffectTree::BodySlam => {
            lemma_damaged_keeps(
                t,
                Side::Foe,
                t.attack_on_foe(t.me.block.current),
                Some(Side::Me),
                DamageKind::Attack,
            );
        },
        EffectTree::Bloodletting(amount) => {
            if amount < 0 {
                lemma_damaged_keeps(
                    t,
                    Side::Me,
                    crate::fixed::clamp(-amount) as Fixed,
                    Some(Side::Me),
                    DamageKind::Power,
                );
            } else {
                lemma_healed_keeps(t, Side::Me, amount);
            }
        },
        EffectTree::DoubleBlock => {
            lemma_block_gained_keeps(t, Side::Me, t.me.block.current);
        },
        EffectTree::DoubleStrength => {
            lemma_strength_applied_keeps(t, Side::Me, t.me.strength.amount);
        },
        EffectTree::AddStatus(card) => {
            lemma_status_added_keeps(t, card);
        },
        EffectTree::Combo(parts) => {
            lemma_combo_applied_keeps(t, parts, parts.len(), registry);
        },
        _ => {},
    }
}

/// Playing the parts of a combo keeps the table.
pub proof fn lemma_combo_applied_keeps(
    t: Table,
    parts: Seq<EffectTree>,
    count: nat,
    registry: Seq<CardDefView>,
)
    requires
        t.me.handle != t.foe.handle,
    ensures
        t.kept_by(t.combo_applied(parts, count, registry)),
    decreases parts, count,
{
    if !(count == 0 || count > parts.len()) {
        lemma_combo_applied_keeps(t, parts, (count - 1) as nat, registry);
        lemma_effect_applied_keeps(
            t.combo_applied(parts, (count - 1) as nat, registry),
            parts[count - 1],
            registry,
        );
    }
}

/// A card that takes effect keeps the table.
pub proof fn lemma_card_resolved_keeps(
    t: Table,
    outcome: PlayOutcome,
    registry: Seq<CardDefView>,
)
    requires
        t.me.handle != t.foe.handle,
    ensures
        t.kept_by(t.card_resolved(outcome, registry)),
{
    let played = match crate::card::lookup(registry, outcome.card_id) {
        Some(def) => {
            lemma_effect_applied_keeps(t, def.effect, registry);
            let applied = t.effect_applied(def.effect, registry);
            match applied.me.powers.rage {
                Some(rage) => {
                    lemma_block_gained_keeps(applied, Side::Me, rage.block_per_attack);
                },
                None => {},
            }
            applied.rage_answered(def.card_type)
        },
        None => t,
    };
    assert(t.kept_by(played));
    if outcome.exhausted {
        let drawn = match played.me.powers.dark_embrace {
            Some(embrace) => if embrace.draw_on_exhaust > 0 {
                lemma_draw_handled_keeps(played, embrace.draw_on_exhaust as usize, registry);
                played.draw_handled(embrace.draw_on_exhaust as usize, registry)
            } else {
                played
            },
            None => played,
        };
        assert(t.kept_by(drawn));
        match drawn.me.powers.feel_no_pain {
            Some(pain) => {
                lemma_block_gained_keeps(drawn, Side::Me, pain.block_on_exhaust);
            },
            None => {},
        }
    }
}

/// The periods of Combust keep the table.
pub proof fn lemma_combust_rounds_keeps(t: Table, combust: CombustEffect, rounds: nat)
    ensures
        t.kept_by(t.combust_rounds(combust, rounds)),
    decreases rounds,
{
    if rounds > 0 {
        lemma_combust_rounds_keeps(t, combust, (rounds - 1) as nat);
        let before = t.combust_rounds(combust, (rounds - 1) as nat);
        lemma_damaged_keeps(
            before,
            Side::Me,
            combust.self_damage,
            Some(Side::Me),
            DamageKind::Power,
        );
        let own = if combust.self_damage > 0 {
            before.damaged(Side::Me, combust.self_damage, Some(Side::Me), DamageKind::Power)
        } else {
            before
        };
        lemma_damaged_keeps(
            own,
            Side::Foe,
            combust.enemy_damage,
            Some(Side::Me),
            DamageKind::Power,
        );
    }
}

/// The periods of Brutality keep the table.
pub proof fn lemma_brutality_rounds_keeps(
    t: Table,
    brutality: BrutalityEffect,
    rounds: nat,
    registry: Seq<CardDefView>,
)
    ensures
        t.kept_by(t.brutality_rounds(brutality, rounds, registry)),
    decreases rounds,
{
    if rounds > 0 {
        lemma_brutality_rounds_keeps(t, brutality, (rounds - 1) as nat, registry);
        let before = t.brutality_rounds(brutality, (rounds - 1) as nat, registry);
        lemma_damaged_keeps(
            before,
            Side::Me,
            brutality.self_damage,
            Some(Side::Me),
            DamageKind::Power,
        );
        let own = if brutality.self_damage > 0 {
            before.damaged(Side::Me, brutality.self_damage, Some(Side::Me), DamageKind::Power)
        } else {
            before
        };
        lemma_draw_handled_keeps(own, brutality.draw as usize, registry);
    }
}

/// The periodic powers keep the table.
pub proof fn lemma_powers_ticked_keeps(t: Table, delta: Millis, registry: Seq<CardDefView>)
    ensures
        t.kept_by(t.powers_ticked(delta, registry)),
{
    let metal = t.metallicize_ticked(delta);
    match t.me.powers.metallicize {
        Some(m) => {
            lemma_block_gained_keeps(
                t,
                Side::Me,
                crate::fixed::accrued(m.block_per_second as int, delta as int) as Fixed,
            );
        },
        None => {},
    }
    assert(t.kept_by(metal));
    let burnt = metal.combust_ticked(delta);
    match metal.me.powers.combust {
        Some(combust) => {
            let timer = crate::fixed::clamp(combust.timer + delta) as Fixed;
            let wound = Table {
                me: PlayerView {
                    powers: crate::status::Powers {
                        combust: Some(
                            CombustEffect {
                                timer: crate::status::timer_after(
                                    timer,
                                    crate::rules::COMBUST_PERIOD,
                                ),
                                ..combust
                            },
                        ),
                        ..metal.me.powers
                    },
                    ..metal.me
                },
                ..metal
            };
            lemma_combust_rounds_keeps(
                wound,
                combust,
                crate::status::periods_in(timer, crate::rules::COMBUST_PERIOD),
            );
        },
        None => {},
    }
    assert(t.kept_by(burnt));
    match burnt.me.powers.brutality {
        Some(brutality) => {
            if brutality.interval > 0 {
                let timer = crate::fixed::clamp(brutality.timer + delta) as Fixed;
                let wound = Table {
                    me: PlayerView {
                        powers: crate::status::Powers {
                            brutality: Some(
                                BrutalityEffect {
                                    timer: crate::status::timer_after(timer, brutality.interval),
                                    ..brutality
                                },
                            ),
                            ..burnt.me.powers
                        },
                        ..burnt.me
                    },
                    ..burnt
                };
                lemma_brutality_rounds_keeps(
                    wound,
                    brutality,
                    crate::status::periods_in(timer, brutality.interval),
                    registry,
                );
            }
        },
        None => {},
    }
}

/// The stage of the clocks keeps the table.
pub proof fn lemma_clocks_keep(t: Table, delta: Millis)
    ensures
        t.kept_by(t.clocks_ticked(delta)),
{
}

/// The stage of the inputs keeps the table.
pub proof fn lemma_inputs_keep(t: Table, frame: Frame, registry: Seq<CardDefView>)
    ensures
        t.kept_by(t.inputs_reconciled(frame, registry)),
{
    lemma_input_keeps(t, frame.first.flags, registry);
    let once = t.input_reconciled(frame.first.flags, registry);
    lemma_input_keeps(once.flipped(), frame.second.flags, registry);
}

/// Reconciling one input word keeps the table.
pub proof fn lemma_input_keeps(t: Table, flags: u16, registry: Seq<CardDefView>)
    ensures
        t.kept_by(t.input_reconciled(flags, registry)),
{
    match t.me.requests(flags, registry).play {
        Some(msg) => {
            lemma_added_push(t.log, EventView::PlayCard(msg), t.me.handle);
            lemma_added_push(t.log, EventView::PlayCard(msg), t.foe.handle);
        },
        None => {},
    }
}

/// Carrying out one player's requests keeps the table.
pub proof fn lemma_deck_moved_keeps(t: Table, requests: Requests, registry: Seq<CardDefView>)
    ensures
        t.kept_by(t.deck_moved(requests, registry)),
{
    let drawn = match requests.draw {
        Some(msg) => {
            lemma_draw_handled_keeps(t, msg.count, registry);
            t.draw_handled(msg.count, registry)
        },
        None => t,
    };
    match requests.play {
        Some(msg) => {
            lemma_play_handled_keeps(drawn, msg.hand_index, registry);
        },
        None => {},
    }
}

/// The stage of the decks keeps the table.
pub proof fn lemma_decks_keep(
    t: Table,
    requests: (Requests, Requests),
    registry: Seq<CardDefView>,
)
    ensures
        t.kept_by(t.decks_moved(requests, registry)),
{
    lemma_deck_moved_keeps(t, requests.0, registry);
    lemma_deck_moved_keeps(t.deck_moved(requests.0, registry).flipped(), requests.1, registry);
}

/// The stage of the effects keeps the table.
pub proof fn lemma_cards_keep(
    t: Table,
    cards: (Option<PlayOutcome>, Option<PlayOutcome>),
    registry: Seq<CardDefView>,
)
    requires
        t.me.handle != t.foe.handle,
    ensures
        t.kept_by(t.cards_resolved(cards, registry)),
{
    match cards.0 {
        Some(outcome) => {
            lemma_card_resolved_keeps(t, outcome, registry);
        },
        None => {},
    }
    let once = t.effects_resolved(cards.0, registry);
    match cards.1 {
        Some(outcome) => {
            lemma_card_resolved_keeps(once.flipped(), outcome, registry);
        },
        None => {},
    }
}

/// The stage of the timed effects keeps the table.
pub proof fn lemma_effects_ticked_keep(t: Table, delta: Millis, registry: Seq<CardDefView>)
    ensures
        t.kept_by(t.effects_ticked(delta, registry)),
{
    let statuses = t.status_ticked(delta).flipped().status_ticked(delta).flipped();
    assert(t.kept_by(statuses));
    lemma_powers_ticked_keeps(statuses, delta, registry);
    let once = statuses.powers_ticked(delta, registry);
    lemma_powers_ticked_keeps(once.flipped(), delta, registry);
    let powers = once.flipped().powers_ticked(delta, registry).flipped();
    assert(t.kept_by(powers));
}

/// The check for deaths keeps the table.
pub proof fn lemma_deaths_keep(t: Table)
    ensures
        t.kept_by(t.deaths_checked()),
{
    lemma_logged_keeps(t, EventView::Death(crate::health::DeathMessage { entity: t.me.handle }));
    let once = t.death_checked();
    lemma_logged_keeps(
        once.flipped(),
        EventView::Death(crate::health::DeathMessage { entity: once.foe.handle }),
    );
}

impl CombatView {
    /// Whether the two players can be told apart.
    pub open spec fn wf(self) -> bool {
        self.first.handle != self.second.handle
    }
}

/// Dealing the opening hands moves cards from the decks to the hands and
/// changes nothing else about what the players own.
pub proof fn lemma_deal_keeps(combat: CombatView, registry: Seq<CardDefView>)
    ensures
        combat.dealt(registry).first.card_count() == combat.first.card_count(),
        combat.dealt(registry).second.card_count() == combat.second.card_count(),
        combat.first.sound() ==> combat.dealt(registry).first.sound(),
        combat.second.sound() ==> combat.dealt(registry).second.sound(),
{
    let start = Table { me: combat.first, foe: combat.second, log: Seq::empty() };
    lemma_draw_handled_keeps(start, crate::rules::OPENING_HAND, registry);
    let once = start.draw_handled(crate::rules::OPENING_HAND, registry);
    lemma_draw_handled_keeps(once.flipped(), crate::rules::OPENING_HAND, registry);
    lemma_draws_add_no_status_cards(start, crate::rules::OPENING_HAND, registry);
    lemma_draws_add_no_status_cards(once.flipped(), crate::rules::OPENING_HAND, registry);
}

/// A draw adds no status card for anybody.
pub proof fn lemma_draws_add_no_status_cards(t: Table, count: usize, registry: Seq<CardDefView>)
    ensures
        status_cards_added(t.draw_handled(count, registry).log, t.me.handle) == status_cards_added(
            t.log,
            t.me.handle,
        ),
        status_cards_added(t.draw_handled(count, registry).log, t.foe.handle)
            == status_cards_added(t.log, t.foe.handle),
{
    let event = EventView::DrawCards(
        crate::event::DrawCardsMessage { player: t.me.handle, count },
    );
    lemma_added_push(t.log, event, t.me.handle);
    lemma_added_push(t.log, event, t.foe.handle);
    lemma_cards_drawn_adds_no_status_cards(t.logged(event), count as nat, registry);
}

/// Drawing cards adds no status card for anybody.
pub proof fn lemma_cards_drawn_adds_no_status_cards(
    t: Table,
    remaining: nat,
    registry: Seq<CardDefView>,
)
    ensures
        status_cards_added(t.cards_drawn(remaining, registry).log, t.me.handle)
            == status_cards_added(t.log, t.me.handle),
        status_cards_added(t.cards_drawn(remaining, registry).log, t.foe.handle)
            == status_cards_added(t.log, t.foe.handle),
        t.cards_drawn(remaining, registry).me.handle == t.me.handle,
        t.cards_drawn(remaining, registry).foe.handle == t.foe.handle,
{
    lemma_cards_drawn_keeps(t, remaining, registry);
    lemma_cards_drawn_moves_cards(t, remaining, registry);
}

/// A hit leaves the piles of both players as they are.
pub proof fn lemma_damaged_leaves_piles(
    t: Table,
    target: Side,
    amount: Fixed,
    source: Option<Side>,
    kind: DamageKind,
)
    ensures
        t.damaged(target, amount, source, kind).me.same_cards(t.me),
        t.damaged(target, amount, source, kind).foe.same_cards(t.foe),
{
}

/// A draw moves cards between the piles of the player who draws and neither
/// makes nor loses any: both players own the cards that they did, card by
/// card.
pub proof fn lemma_draw_handled_keeps_all_cards(
    t: Table,
    count: usize,
    registry: Seq<CardDefView>,
)
    ensures
        t.draw_handled(count, registry).me.all_cards() == t.me.all_cards(),
        t.draw_handled(count, registry).foe.all_cards() == t.foe.all_cards(),
        t.draw_handled(count, registry).foe.same_cards(t.foe),
{
    let event = EventView::DrawCards(
        crate::event::DrawCardsMessage { player: t.me.handle, count },
    );
    lemma_cards_drawn_moves_cards(t.logged(event), count as nat, registry);
}

/// Playing a card moves it from the hand under the deck or out of the
/// rotation: the player owns the cards that were owned before, card by card,
/// and the opponent's piles are as they were.
pub proof fn lemma_play_handled_keeps_all_cards(
    t: Table,
    index: usize,
    registry: Seq<CardDefView>,
)
    ensures
        t.play_handled(index, registry).me.all_cards() == t.me.all_cards(),
        t.play_handled(index, registry).foe.same_cards(t.foe),
{
    if index < t.me.hand.len() {
        crate::deck::lemma_played_keeps_cards(t.me, registry, index as int);
    }
}

/// A status card that is added is one more card for the player who gets it:
/// that card, on the discard pile.
pub proof fn lemma_status_added_adds_the_card(t: Table, card: CardId)
    ensures
        t.status_added(card).me.all_cards() == t.me.all_cards().insert(card),
        t.status_added(card).me.discard == t.me.discard.push(card),
        t.status_added(card).foe.same_cards(t.foe),
{
    broadcast use vstd::seq_lib::group_to_multiset_ensures;

    assert(t.me.discard.push(card).to_multiset() =~= t.me.discard.to_multiset().insert(card));
    assert(t.status_added(card).me.all_cards() =~= t.me.all_cards().insert(card));
}

/// Drawing cards leaves what each player owns as it is, in number and card
/// by card.
pub proof fn lemma_cards_drawn_moves_cards(t: Table, remaining: nat, registry: Seq<CardDefView>)
    ensures
        t.cards_drawn(remaining, registry).me.card_count() == t.me.card_count(),
        t.cards_drawn(remaining, registry).foe.card_count() == t.foe.card_count(),
        t.cards_drawn(remaining, registry).me.all_cards() == t.me.all_cards(),
        t.cards_drawn(remaining, registry).foe.same_cards(t.foe),
    decreases MAX_HAND_SIZE - t.me.hand.len(),
{
    if !(remaining == 0 || t.me.hand.len() >= MAX_HAND_SIZE) {
        let ready = if t.me.needs_recycling() {
            crate::deck::lemma_recycled_keeps_cards(t.me);
            Table { me: t.me.recycled(), ..t }.logged(
                EventView::DeckReshuffled(
                    crate::event::DeckReshuffledView {
                        player: t.me.handle,
                        deck: t.me.recycled().deck.cards,
                    },
                ),
            )
        } else {
            t
        };
        match ready.me.deck.top() {
            None => {},
            Some(card) => {
                crate::deck::lemma_one_drawn_keeps_cards(ready.me);
                let held = Table { me: ready.me.one_drawn(), ..ready };
                if crate::card::is_status(registry, card) {
                    let more = (remaining - 1 + held.me.evolve_bonus()) as nat;
                    match held.me.fire_damage() {
                        Some(damage) => {
                            lemma_damaged_keeps(
                                held,
                                Side::Foe,
                                damage,
                                Some(Side::Me),
                                DamageKind::Power,
                            );
                            lemma_damaged_leaves_piles(
                                held,
                                Side::Foe,
                                damage,
                                Some(Side::Me),
                                DamageKind::Power,
                            );
                            let burnt = held.damaged(
                                Side::Foe,
                                damage,
                                Some(Side::Me),
                                DamageKind::Power,
                            );
                            lemma_cards_drawn_moves_cards(burnt, more, registry);
                        },
                        None => {
                            lemma_cards_drawn_moves_cards(held, more, registry);
                        },
                    }
                } else {
                    lemma_cards_drawn_moves_cards(held, (remaining - 1) as nat, registry);
                }
            },
        }
    }
}

/// A tick keeps the table.
pub proof fn lemma_tick_keeps(combat: CombatView, frame: Frame, registry: Seq<CardDefView>)
    requires
        combat.wf(),
    ensures
        (Table { me: combat.first, foe: combat.second, log: Seq::empty() }).kept_by(
            combat.tick_table(frame, registry),
        ),
{
    reveal(CombatView::tick_table);
    let start = Table { me: combat.first, foe: combat.second, log: Seq::empty() };
    if !combat.over() {
        lemma_clocks_keep(start, frame.delta);
        let clocks = start.clocks_ticked(frame.delta);
        lemma_inputs_keep(clocks, frame, registry);
        let inputs = clocks.inputs_reconciled(frame, registry);
        let requests = clocks.requests_made(frame, registry);
        lemma_decks_keep(inputs, requests, registry);
        let decks = inputs.decks_moved(requests, registry);
        let cards = inputs.cards_moved(requests, registry);
        lemma_cards_keep(decks, cards, registry);
        let effects = decks.cards_resolved(cards, registry);
        lemma_effects_ticked_keep(effects, frame.delta, registry);
        let ticked = effects.effects_ticked(frame.delta, registry);
        lemma_deaths_keep(ticked);
    }
}

/// A tick keeps sound players sound.
pub proof fn lemma_tick_keeps_players_sound(
    combat: CombatView,
    frame: Frame,
    registry: Seq<CardDefView>,
)
    requires
        combat.wf(),
    ensures
        combat.ticked(frame, registry).wf(),
        combat.first.sound() ==> combat.ticked(frame, registry).first.sound(),
        combat.second.sound() ==> combat.ticked(frame, registry).second.sound(),
{
    lemma_tick_keeps(combat, frame, registry);
}

/// Any run of ticks keeps sound players sound.
pub proof fn lemma_replay_keeps_players_sound(
    combat: CombatView,
    frames: Seq<Frame>,
    registry: Seq<CardDefView>,
)
    requires
        combat.wf(),
    ensures
        combat.replayed(frames, registry).combat.wf(),
        combat.first.sound() ==> combat.replayed(frames, registry).combat.first.sound(),
        combat.second.sound() ==> combat.replayed(frames, registry).combat.second.sound(),
    decreases frames.len(),
{
    if frames.len() > 0 {
        lemma_replay_keeps_players_sound(combat, frames.drop_last(), registry);
        lemma_tick_keeps_players_sound(
            combat.replayed(frames.drop_last(), registry).combat,
            frames.last(),
            registry,
        );
    }
}

/// Over one tick, the number of cards that a player owns grows by the status
/// cards that the tick's log adds for that player, and changes in no other
/// way.
pub proof fn lemma_tick_conserves_cards(
    combat: CombatView,
    frame: Frame,
    registry: Seq<CardDefView>,
)
    requires
        combat.wf(),
    ensures
        combat.ticked(frame, registry).wf(),
        combat.ticked(frame, registry).first.handle == combat.first.handle,
        combat.ticked(frame, registry).second.handle == combat.second.handle,
        combat.ticked(frame, registry).first.card_count() == combat.first.card_count()
            + status_cards_added(combat.tick_table(frame, registry).log, combat.first.handle),
        combat.ticked(frame, registry).second.card_count() == combat.second.card_count()
            + status_cards_added(combat.tick_table(frame, registry).log, combat.second.handle),
{
    lemma_tick_keeps(combat, frame, registry);
}

/// Over any run of ticks, the number of cards that a player owns grows by the
/// status cards that the log of the run adds for that player, and changes in
/// no other way.
pub proof fn lemma_replay_conserves_cards(
    combat: CombatView,
    frames: Seq<Frame>,
    registry: Seq<CardDefView>,
)
    requires
        combat.wf(),
    ensures
        combat.replayed(frames, registry).combat.wf(),
        combat.replayed(frames, registry).combat.first.handle == combat.first.handle,
        combat.replayed(frames, registry).combat.second.handle == combat.second.handle,
        combat.replayed(frames, registry).combat.first.card_count() == combat.first.card_count()
            + status_cards_added(combat.replayed(frames, registry).log, combat.first.handle),
        combat.replayed(frames, registry).combat.second.card_count()
            == combat.second.card_count() + status_cards_added(
            combat.replayed(frames, registry).log,
            combat.second.handle,
        ),
    decreases frames.len(),
{
    if frames.len() > 0 {
        lemma_replay_conserves_cards(combat, frames.drop_last(), registry);
        let before = combat.replayed(frames.drop_last(), registry);
        lemma_tick_conserves_cards(before.combat, frames.last(), registry);
        let tick_log = before.combat.tick_table(frames.last(), registry).log;
        lemma_added_concat(before.log, tick_log, combat.first.handle);
        lemma_added_concat(before.log, tick_log, combat.second.handle);
    }
}

} // verus!
