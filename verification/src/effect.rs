//! Card effects: what playing a card does to the two players.
//!
//! An effect is resolved by walking its tree.  Every leaf acts at once on the
//! state that the leaves before it have left, so a later part of a combo sees
//! what the earlier parts did.

use vstd::prelude::*;
use crate::card::{
    lemma_combo_view, lookup, CardDefView, CardEffect, CardId, CardRegistry, CardType, EffectTree,
};
use crate::deck::{handle_draw_cards, PlayOutcome};
use crate::event::{
    AddStatusCardMessage, ApplyStrengthMessage, ApplyVulnerableMessage, ApplyWeakMessage,
    EventView, GameEvent, record,
};
use crate::fixed::{clamp, negated, Fixed};
use crate::health::{deal_damage, gain_block, gain_thorns, heal, DamageKind};
use crate::player::{PlayerBundle, PlayerView, Side, Table};
use crate::rules::RAGE_DURATION;
use crate::status::{
    attack_damage, attack_damage_of, prolonged, BarricadeEffect, BrutalityEffect, CombustEffect,
    CorruptionEffect, DarkEmbraceEffect, DemonFormEffect, EvolveEffect, FeelNoPainEffect,
    FireBreathingEffect, JuggernautEffect, MetallicizeEffect, Powers, RageEffect, RuptureEffect,
    Vulnerable, Weak,
};

verus! {

impl Powers {
    /// The powers after the power that `effect` names has been attached, in
    /// place of the one of its kind that was there.  Other effects attach
    /// nothing.
    pub open spec fn attached(self, effect: EffectTree) -> Powers {
        match effect {
            EffectTree::Rage(block_per_attack) => Powers {
                rage: Some(RageEffect { block_per_attack, duration: RAGE_DURATION }),
                ..self
            },
            EffectTree::Metallicize(block_per_second) => Powers {
                metallicize: Some(MetallicizeEffect { block_per_second }),
                ..self
            },
            EffectTree::Combust { self_damage, enemy_damage } => Powers {
                combust: Some(CombustEffect { self_damage, enemy_damage, timer: 0 }),
                ..self
            },
            EffectTree::DemonForm(strength_per_second) => Powers {
                demon_form: Some(DemonFormEffect { strength_per_second, accumulated: 0 }),
                ..self
            },
            EffectTree::Barricade => Powers { barricade: Some(BarricadeEffect), ..self },
            EffectTree::Juggernaut(damage_on_block) => Powers {
                juggernaut: Some(JuggernautEffect { damage_on_block }),
                ..self
            },
            EffectTree::DarkEmbrace { draw } => Powers {
                dark_embrace: Some(DarkEmbraceEffect { draw_on_exhaust: draw }),
                ..self
            },
            EffectTree::Evolve { draw } => Powers {
                evolve: Some(EvolveEffect { draw_on_status: draw }),
                ..self
            },
            EffectTree::FeelNoPain { block } => Powers {
                feel_no_pain: Some(FeelNoPainEffect { block_on_exhaust: block }),
                ..self
            },
            EffectTree::FireBreathing { damage } => Powers {
                fire_breathing: Some(FireBreathingEffect { damage_on_status_draw: damage }),
                ..self
            },
            EffectTree::Rupture { strength } => Powers {
                rupture: Some(RuptureEffect { strength_on_self_damage: strength }),
                ..self
            },
            EffectTree::Corruption => Powers { corruption: Some(CorruptionEffect), ..self },
            EffectTree::Brutality { self_damage, draw, interval } => Powers {
                brutality: Some(BrutalityEffect { self_damage, draw, interval, timer: 0 }),
                ..self
            },
            _ => self,
        }
    }
}

/// Attaching a power again puts the new one in place of the old: the powers
/// are as if only the second had been attached.
pub proof fn lemma_attach_replaces(powers: Powers, first: EffectTree, second: EffectTree)
    requires
        same_power(first, second),
    ensures
        powers.attached(first).attached(second) == powers.attached(second),
{
}

/// Whether two effects attach a power of the same kind.
pub open spec fn same_power(first: EffectTree, second: EffectTree) -> bool {
    match (first, second) {
        (EffectTree::Rage(_), EffectTree::Rage(_)) => true,
        (EffectTree::Metallicize(_), EffectTree::Metallicize(_)) => true,
        (EffectTree::Combust { .. }, EffectTree::Combust { .. }) => true,
        (EffectTree::DemonForm(_), EffectTree::DemonForm(_)) => true,
        (EffectTree::Barricade, EffectTree::Barricade) => true,
        (EffectTree::Juggernaut(_), EffectTree::Juggernaut(_)) => true,
        (EffectTree::DarkEmbrace { .. }, EffectTree::DarkEmbrace { .. }) => true,
        (EffectTree::Evolve { .. }, EffectTree::Evolve { .. }) => true,
        (EffectTree::FeelNoPain { .. }, EffectTree::FeelNoPain { .. }) => true,
        (EffectTree::FireBreathing { .. }, EffectTree::FireBreathing { .. }) => true,
        (EffectTree::Rupture { .. }, EffectTree::Rupture { .. }) => true,
        (EffectTree::Corruption, EffectTree::Corruption) => true,
        (EffectTree::Brutality { .. }, EffectTree::Brutality { .. }) => true,
        _ => false,
    }
}

impl Table {
    /// The table after the player on `target` gains `amount` strength.
    pub open spec fn strength_applied(self, target: Side, amount: Fixed) -> Table {
        let player = self.player(target);
        self.logged(
            EventView::ApplyStrength(ApplyStrengthMessage { target: player.handle, amount }),
        ).with_player(target, PlayerView { strength: player.strength.gained(amount), ..player })
    }

    /// The table after the player on `target` is made vulnerable for
    /// `duration` longer.
    pub open spec fn vulnerable_applied(self, target: Side, duration: Fixed) -> Table {
        let player = self.player(target);
        self.logged(
            EventView::ApplyVulnerable(ApplyVulnerableMessage { target: player.handle, duration }),
        ).with_player(
            target,
            PlayerView {
                vulnerable: Vulnerable { duration: prolonged(player.vulnerable.duration, duration) },
                ..player
            },
        )
    }

    /// The table after the player on `target` is weakened for `duration`
    /// longer.
    pub open spec fn weak_applied(self, target: Side, duration: Fixed) -> Table {
        let player = self.player(target);
        self.logged(
            EventView::ApplyWeak(ApplyWeakMessage { target: player.handle, duration }),
        ).with_player(
            target,
            PlayerView { weak: Weak { duration: prolonged(player.weak.duration, duration) }, ..player },
        )
    }

    /// The table after the status card `card` has gone to the discard pile of
    /// the acting player.
    pub open spec fn status_added(self, card: CardId) -> Table {
        Table { me: PlayerView { discard: self.me.discard.push(card), ..self.me }, ..self }.logged(
            EventView::AddStatusCard(
                AddStatusCardMessage { player: self.me.handle, card_id: card },
            ),
        )
    }

    /// The damage of an attack of `base` by the acting player on the
    /// opponent, as the two stand.
    pub open spec fn attack_on_foe(self, base: Fixed) -> Fixed {
        attack_damage_of(base, self.me.strength, self.me.weak, self.foe.vulnerable)
    }

    /// The table after the acting player has hit the opponent `hits` times for
    /// `damage`.
    pub open spec fn hits_dealt(self, damage: Fixed, hits: nat) -> Table
        decreases hits,
    {
        if hits == 0 {
            self
        } else {
            self.hits_dealt(damage, (hits - 1) as nat).damaged(
                Side::Foe,
                damage,
                Some(Side::Me),
                DamageKind::Attack,
            )
        }
    }

    /// The table after the acting player has played `effect`.
    ///
    /// An attack is raised by the player's strength, cut by the player's
    /// weakness and raised by the opponent's vulnerability, as they stand when
    /// the leaf is reached; several hits share one such damage.  Body Slam
    /// attacks with the player's block for a base.  Bloodletting costs health
    /// where its amount is negative and heals otherwise.  Doubling block or
    /// strength gains what the player holds.  A power is attached in place of
    /// the one of its kind.  A combo applies its parts in order.
    pub open spec fn effect_applied(self, effect: EffectTree, registry: Seq<CardDefView>) -> Table
        decreases effect,
    {
        match effect {
            EffectTree::Damage(amount) => self.damaged(
                Side::Foe,
                self.attack_on_foe(amount),
                Some(Side::Me),
                DamageKind::Attack,
            ),
            EffectTree::MultiHit { damage, hits } => self.hits_dealt(
                self.attack_on_foe(damage),
                hits as nat,
            ),
            EffectTree::Heal(amount) => self.healed(Side::Me, amount),
            EffectTree::Draw(count) => self.draw_handled(count as usize, registry),
            EffectTree::Block(amount) => self.block_gained(Side::Me, amount),
            EffectTree::Thorns(amount) => self.thorns_gained(Side::Me, amount),
            EffectTree::Strength(amount) => self.strength_applied(Side::Me, amount),
            EffectTree::Vulnerable(duration) => self.vulnerable_applied(Side::Foe, duration),
            EffectTree::SelfVulnerable(duration) => self.vulnerable_applied(Side::Me, duration),
            EffectTree::Weak(duration) => self.weak_applied(Side::Foe, duration),
            EffectTree::Accelerate { bonus_rate, duration } => Table {
                me: PlayerView {
                    clock: self.me.clock.accelerated(bonus_rate, duration),
                    ..self.me
                },
                ..self
            },
            EffectTree::BodySlam => self.damaged(
                Side::Foe,
                self.attack_on_foe(self.me.block.current),
                Some(Side::Me),
                DamageKind::Attack,
            ),
            EffectTree::Bloodletting(amount) => if amount < 0 {
                self.damaged(
                    Side::Me,
                    clamp(-amount) as Fixed,
                    Some(Side::Me),
                    DamageKind::Power,
                )
            } else {
                self.healed(Side::Me, amount)
            },
            EffectTree::DoubleBlock => self.block_gained(Side::Me, self.me.block.current),
            EffectTree::DoubleStrength => self.strength_applied(
                Side::Me,
                self.me.strength.amount,
            ),
            EffectTree::Exhaust => self,
            EffectTree::AddStatus(card) => self.status_added(card),
            EffectTree::Combo(parts) => self.combo_applied(parts, parts.len(), registry),
            _ => Table {
                me: PlayerView { powers: self.me.powers.attached(effect), ..self.me },
                ..self
            },
        }
    }

    /// The table after the acting player has played the first `count` of
    /// `parts`, in order.
    pub open spec fn combo_applied(
        self,
        parts: Seq<EffectTree>,
        count: nat,
        registry: Seq<CardDefView>,
    ) -> Table
        decreases parts, count,
    {
        if count == 0 || count > parts.len() {
            self
        } else {
            self.combo_applied(parts, (count - 1) as nat, registry).effect_applied(
                parts[count - 1],
                registry,
            )
        }
    }

    /// The table after the acting player's powers have answered an exhausted
    /// card: Dark Embrace draws, then Feel No Pain gives block.
    pub open spec fn exhaust_answered(self, registry: Seq<CardDefView>) -> Table {
        let drawn = match self.me.powers.dark_embrace {
            Some(embrace) => if embrace.draw_on_exhaust > 0 {
                self.draw_handled(embrace.draw_on_exhaust as usize, registry)
            } else {
                self
            },
            None => self,
        };
        match drawn.me.powers.feel_no_pain {
            Some(pain) => if pain.block_on_exhaust > 0 {
                drawn.block_gained(Side::Me, pain.block_on_exhaust)
            } else {
                drawn
            },
            None => drawn,
        }
    }

    /// The table after Rage has answered the play of a card of `card_type`:
    /// an attack gives block while Rage is active.
    pub open spec fn rage_answered(self, card_type: CardType) -> Table {
        match self.me.powers.rage {
            Some(rage) => if card_type == CardType::Attack && rage.active() {
                self.block_gained(Side::Me, rage.block_per_attack)
            } else {
                self
            },
            None => self,
        }
    }

    /// The table after the card of `outcome`, which the acting player has
    /// played, has taken effect: the card's effect, then Rage, then the powers
    /// that answer an exhausted card.  A card that the registry does not hold
    /// has no effect.
    pub open spec fn card_resolved(self, outcome: PlayOutcome, registry: Seq<CardDefView>) -> Table {
        let played = match lookup(registry, outcome.card_id) {
            Some(def) => self.effect_applied(def.effect, registry).rage_answered(def.card_type),
            None => self,
        };
        if outcome.exhausted {
            played.exhaust_answered(registry)
        } else {
            played
        }
    }
}

/// The player on `target` gains `amount` strength.
pub fn apply_strength(
    me: &mut PlayerBundle,
    foe: &mut PlayerBundle,
    log: &mut Vec<GameEvent>,
    target: Side,
    amount: Fixed,
)
    ensures
        Table::of(*final(me), *final(foe), *final(log)) == Table::of(
            *old(me),
            *old(foe),
            *old(log),
        ).strength_applied(target, amount),
{
    match target {
        Side::Me => {
            record(log, GameEvent::ApplyStrength(ApplyStrengthMessage { target: me.handle, amount }));
            me.strength.gain(amount);
        },
        Side::Foe => {
            record(log, GameEvent::ApplyStrength(ApplyStrengthMessage { target: foe.handle, amount }));
            foe.strength.gain(amount);
        },
    }
}

/// The player on `target` is made vulnerable for `duration` longer.
pub fn apply_vulnerable(
    me: &mut PlayerBundle,
    foe: &mut PlayerBundle,
    log: &mut Vec<GameEvent>,
    target: Side,
    duration: Fixed,
)
    ensures
        Table::of(*final(me), *final(foe), *final(log)) == Table::of(
            *old(me),
            *old(foe),
            *old(log),
        ).vulnerable_applied(target, duration),
{
    match target {
        Side::Me => {
            record(log, GameEvent::ApplyVulnerable(ApplyVulnerableMessage { target: me.handle, duration }),
            );
            me.vulnerable.apply(duration);
        },
        Side::Foe => {
            record(log, GameEvent::ApplyVulnerable(ApplyVulnerableMessage { target: foe.handle, duration }),
            );
            foe.vulnerable.apply(duration);
        },
    }
}

/// The player on `target` is weakened for `duration` longer.
pub fn apply_weak(
    me: &mut PlayerBundle,
    foe: &mut PlayerBundle,
    log: &mut Vec<GameEvent>,
    target: Side,
    duration: Fixed,
)
    ensures
        Table::of(*final(me), *final(foe), *final(log)) == Table::of(
            *old(me),
            *old(foe),
            *old(log),
        ).weak_applied(target, duration),
{
    match target {
        Side::Me => {
            record(log, GameEvent::ApplyWeak(ApplyWeakMessage { target: me.handle, duration }));
            me.weak.apply(duration);
        },
        Side::Foe => {
            record(log, GameEvent::ApplyWeak(ApplyWeakMessage { target: foe.handle, duration }));
            foe.weak.apply(duration);
        },
    }
}

/// Put the status card `card_id` on the discard pile of `me`.
pub fn add_status_card(
    me: &mut PlayerBundle,
    foe: &mut PlayerBundle,
    log: &mut Vec<GameEvent>,
    card_id: CardId,
)
    ensures
        Table::of(*final(me), *final(foe), *final(log)) == Table::of(
            *old(me),
            *old(foe),
            *old(log),
        ).status_added(card_id),
{
    me.discard_pile.add_card(card_id);
    record(log, GameEvent::AddStatusCard(AddStatusCardMessage { player: me.handle, card_id }));
}

/// Attach the power that `effect` names to `powers`.
fn attach_power(powers: &mut Powers, effect: &CardEffect)
    ensures
        *final(powers) == old(powers).attached(effect@),
{
    match effect {
        CardEffect::Rage(block_per_attack) => {
            powers.rage = Some(RageEffect::new(*block_per_attack, RAGE_DURATION));
        },
        CardEffect::Metallicize(block_per_second) => {
            powers.metallicize = Some(MetallicizeEffect::new(*block_per_second));
        },
        CardEffect::Combust { self_damage, enemy_damage } => {
            powers.combust = Some(CombustEffect::new(*self_damage, *enemy_damage));
        },
        CardEffect::DemonForm(strength_per_second) => {
            powers.demon_form = Some(DemonFormEffect::new(*strength_per_second));
        },
        CardEffect::Barricade => {
            powers.barricade = Some(BarricadeEffect);
        },
        CardEffect::Juggernaut(damage_on_block) => {
            powers.juggernaut = Some(JuggernautEffect::new(*damage_on_block));
        },
        CardEffect::DarkEmbrace { draw } => {
            powers.dark_embrace = Some(DarkEmbraceEffect::new(*draw));
        },
        CardEffect::Evolve { draw } => {
            powers.evolve = Some(EvolveEffect::new(*draw));
        },
        CardEffect::FeelNoPain { block } => {
            powers.feel_no_pain = Some(FeelNoPainEffect::new(*block));
        },
        CardEffect::FireBreathing { damage } => {
            powers.fire_breathing = Some(FireBreathingEffect::new(*damage));
        },
        CardEffect::Rupture { strength } => {
            powers.rupture = Some(RuptureEffect::new(*strength));
        },
        CardEffect::Corruption => {
            powers.corruption = Some(CorruptionEffect);
        },
        CardEffect::Brutality { self_damage, draw, interval } => {
            powers.brutality = Some(BrutalityEffect::new(*self_damage, *draw, *interval));
        },
        _ => {},
    }
}

/// The damage of an attack of `base` by `me` on `foe`.
fn attack_on(me: &PlayerBundle, foe: &PlayerBundle, base: Fixed) -> (r: Fixed)
    ensures
        forall|log: Vec<GameEvent>| r == Table::of(*me, *foe, log).attack_on_foe(base),
{
    attack_damage(base, &me.strength, &me.weak, &foe.vulnerable)
}

/// Play `effect` for `me` against `foe`.
pub fn apply_card_effect(
    effect: &CardEffect,
    me: &mut PlayerBundle,
    foe: &mut PlayerBundle,
    log: &mut Vec<GameEvent>,
    registry: &CardRegistry,
)
    ensures
        Table::of(*final(me), *final(foe), *final(log)) == Table::of(
            *old(me),
            *old(foe),
            *old(log),
        ).effect_applied(effect@, registry@),
    decreases effect,
{
    match effect {
        CardEffect::Damage(amount) => {
            let total_damage = attack_on(me, foe, *amount);
            deal_damage(me, foe, log, Side::Foe, total_damage, Some(Side::Me), DamageKind::Attack);
        },
        CardEffect::MultiHit { damage, hits } => {
            let total_damage = attack_on(me, foe, *damage);
            let ghost start = Table::of(*me, *foe, *log);
            let mut done: u32 = 0;
            while done < *hits
                invariant
                    done <= *hits,
                    Table::of(*me, *foe, *log) == start.hits_dealt(total_damage, done as nat),
                decreases *hits - done,
            {
                deal_damage(
                    me,
                    foe,
                    log,
                    Side::Foe,
                    total_damage,
                    Some(Side::Me),
                    DamageKind::Attack,
                );
                done = done + 1;
            }
        },
        CardEffect::Heal(amount) => {
            heal(me, foe, log, Side::Me, *amount);
        },
        CardEffect::Draw(count) => {
            handle_draw_cards(me, foe, log, *count as usize, registry);
        },
        CardEffect::Block(amount) => {
            gain_block(me, foe, log, Side::Me, *amount);
        },
        CardEffect::Thorns(amount) => {
            gain_thorns(me, foe, log, Side::Me, *amount);
        },
        CardEffect::Strength(amount) => {
            apply_strength(me, foe, log, Side::Me, *amount);
        },
        CardEffect::Vulnerable(duration) => {
            apply_vulnerable(me, foe, log, Side::Foe, *duration);
        },
        CardEffect::SelfVulnerable(duration) => {
            apply_vulnerable(me, foe, log, Side::Me, *duration);
        },
        CardEffect::Weak(duration) => {
            apply_weak(me, foe, log, Side::Foe, *duration);
        },
        CardEffect::Accelerate { bonus_rate, duration } => {
            me.clock.accelerate(*bonus_rate, *duration);
        },
        CardEffect::BodySlam => {
            let total_damage = attack_on(me, foe, me.block.current);
            deal_damage(me, foe, log, Side::Foe, total_damage, Some(Side::Me), DamageKind::Attack);
        },
        CardEffect::Bloodletting(amount) => {
            if *amount < 0 {
                deal_damage(
                    me,
                    foe,
                    log,
                    Side::Me,
                    negated(*amount),
                    Some(Side::Me),
                    DamageKind::Power,
                );
            } else {
                heal(me, foe, log, Side::Me, *amount);
            }
        },
        CardEffect::DoubleBlock => {
            let held = me.block.current;
            gain_block(me, foe, log, Side::Me, held);
        },
        CardEffect::DoubleStrength => {
            let held = me.strength.amount;
            apply_strength(me, foe, log, Side::Me, held);
        },
        CardEffect::Exhaust => {},
        CardEffect::AddStatus(card_id) => {
            add_status_card(me, foe, log, *card_id);
        },
        CardEffect::Combo(effects) => {
            let ghost start = Table::of(*me, *foe, *log);
            let ghost parts = effect@->Combo_0;
            proof {
                lemma_combo_view(*effects);
            }
            let mut i: usize = 0;
            while i < effects.len()
                invariant
                    i <= effects.len(),
                    *effect == CardEffect::Combo(*effects),
                    effect@ == EffectTree::Combo(parts),
                    parts.len() == effects.len(),
                    forall|k: int| 0 <= k < parts.len() ==> parts[k] == #[trigger] effects[k]@,
                    Table::of(*me, *foe, *log) == start.combo_applied(parts, i as nat, registry@),
                decreases effects.len() - i,
            {
                proof {
                    assert(*effects == effect->Combo_0);
                    assert(decreases_to!(*effect => effect->Combo_0));
                    assert(decreases_to!(*effects => effects[i as int]));
                }
                apply_card_effect(&effects[i], me, foe, log, registry);
                i = i + 1;
            }
        },
        _ => {
            attach_power(&mut me.powers, effect);
        },
    }
}

/// Let the card of `outcome`, which `me` has played, take effect.
pub fn apply_card_effects(
    outcome: &PlayOutcome,
    me: &mut PlayerBundle,
    foe: &mut PlayerBundle,
    log: &mut Vec<GameEvent>,
    registry: &CardRegistry,
)
    ensures
        Table::of(*final(me), *final(foe), *final(log)) == Table::of(
            *old(me),
            *old(foe),
            *old(log),
        ).card_resolved(*outcome, registry@),
{
    match registry.get(outcome.card_id) {
        Some(card_def) => {
            apply_card_effect(&card_def.effect, me, foe, log, registry);
            match card_def.card_type {
                CardType::Attack => {
                    match me.powers.rage {
                        Some(rage) => {
                            if rage.is_active() {
                                gain_block(me, foe, log, Side::Me, rage.block_per_attack);
                            }
                        },
                        None => {},
                    }
                },
                _ => {},
            }
        },
        None => {},
    }
    if outcome.exhausted {
        match me.powers.dark_embrace {
            Some(embrace) => {
                if embrace.draw_on_exhaust > 0 {
                    handle_draw_cards(me, foe, log, embrace.draw_on_exhaust as usize, registry);
                }
            },
            None => {},
        }
        match me.powers.feel_no_pain {
            Some(pain) => {
                if pain.block_on_exhaust > 0 {
                    gain_block(me, foe, log, Side::Me, pain.block_on_exhaust);
                }
            },
            None => {},
        }
    }
}

} // verus!
