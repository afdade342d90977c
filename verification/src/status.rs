//! Status effects and persistent powers.

use vstd::prelude::*;
use crate::fixed::{
    accrued, at_least_zero, clamp, difference, floor_zero, fraction, over_time, scaled, sum,
    Fixed, Millis, ONE,
};
use crate::card::{CardDefView, CardRegistry};
use crate::deck::handle_draw_cards;
use crate::event::GameEvent;
use crate::health::{deal_damage, gain_block, Block, DamageKind};
use crate::player::{PlayerBundle, PlayerView, Side, Table};
use crate::rules::{BLOCK_DECAY_RATE, COMBUST_PERIOD, STRENGTH_DAMAGE};

verus! {

/// Strength - increases damage dealt by attacks.
#[derive(Debug, Clone, Copy, PartialEq, Eq, Structural)]
pub struct Strength {
    pub amount: Fixed,
}

impl Strength {
    /// The strength held after gaining `amount`.
    pub open spec fn gained(self, amount: Fixed) -> Strength {
        Strength { amount: clamp(self.amount + amount) as Fixed }
    }

    /// What strength adds to an attack.
    pub open spec fn bonus(self) -> int {
        clamp(self.amount * STRENGTH_DAMAGE)
    }

    /// `base_damage` raised by strength, not below zero.
    pub open spec fn modified(self, base_damage: Fixed) -> int {
        at_least_zero(clamp(base_damage + self.bonus()))
    }

    pub fn gain(&mut self, amount: Fixed)
        ensures
            *final(self) == old(self).gained(amount),
    {
        self.amount = sum(self.amount, amount);
    }

    /// The damage that strength adds to an attack.
    pub fn damage_bonus(&self) -> (r: Fixed)
        ensures
            r == self.bonus(),
    {
        scaled(self.amount, STRENGTH_DAMAGE, 1)
    }

    pub fn modify_damage(&self, base_damage: Fixed) -> (r: Fixed)
        ensures
            r == self.modified(base_damage),
    {
        floor_zero(sum(base_damage, self.damage_bonus()))
    }
}

impl Default for Strength {
    fn default() -> (r: Self)
        ensures
            r.amount == 0,
    {
        Strength { amount: 0 }
    }
}

/// The time left of an effect of `duration` after `delta`: it stops at zero,
/// and a time that is not positive is left alone.
pub open spec fn decayed(duration: Fixed, delta: Millis) -> Fixed {
    if duration > 0 {
        at_least_zero(clamp(duration - delta)) as Fixed
    } else {
        duration
    }
}

/// The time left after an effect of `duration` is prolonged by `more`.
pub open spec fn prolonged(duration: Fixed, more: Fixed) -> Fixed {
    at_least_zero(clamp(duration + more)) as Fixed
}

fn decay(duration: Fixed, delta: Millis) -> (r: Fixed)
    ensures
        r == decayed(duration, delta),
{
    if duration > 0 {
        floor_zero(difference(duration, delta as i64))
    } else {
        duration
    }
}

/// Vulnerable - takes 50% more damage. Duration in seconds.
#[derive(Debug, Clone, Copy, PartialEq, Eq, Structural)]
pub struct Vulnerable {
    pub duration: Fixed,
}

impl Vulnerable {
    pub open spec fn active(self) -> bool {
        self.duration > 0
    }

    /// Incoming damage as a vulnerable target takes it: half as much
    /// again, rounded down.
    pub open spec fn incoming(self, damage: Fixed) -> Fixed {
        if self.active() {
            fraction(damage as int, 3, 2) as Fixed
        } else {
            damage
        }
    }

    pub fn apply(&mut self, duration: Fixed)
        ensures
            final(self).duration == prolonged(old(self).duration, duration),
    {
        self.duration = floor_zero(sum(self.duration, duration));
    }

    pub fn is_active(&self) -> (r: bool)
        ensures
            r == self.active(),
    {
        self.duration > 0
    }

    pub fn modify_incoming_damage(&self, damage: Fixed) -> (r: Fixed)
        ensures
            r == self.incoming(damage),
    {
        if self.is_active() {
            scaled(damage, 3, 2)
        } else {
            damage
        }
    }

    /// Let `delta` pass.
    pub fn tick(&mut self, delta: Millis)
        ensures
            final(self).duration == decayed(old(self).duration, delta),
    {
        self.duration = decay(self.duration, delta);
    }
}

impl Default for Vulnerable {
    fn default() -> (r: Self)
        ensures
            r.duration == 0,
    {
        Vulnerable { duration: 0 }
    }
}

/// Weak - deals 25% less damage. Duration in seconds.
#[derive(Debug, Clone, Copy, PartialEq, Eq, Structural)]
pub struct Weak {
    pub duration: Fixed,
}

impl Weak {
    pub open spec fn active(self) -> bool {
        self.duration > 0
    }

    /// Outgoing damage as a weak attacker deals it: three quarters, rounded
    /// down.
    pub open spec fn outgoing(self, damage: Fixed) -> Fixed {
        if self.active() {
            fraction(damage as int, 3, 4) as Fixed
        } else {
            damage
        }
    }

    pub fn apply(&mut self, duration: Fixed)
        ensures
            final(self).duration == prolonged(old(self).duration, duration),
    {
        self.duration = floor_zero(sum(self.duration, duration));
    }

    pub fn is_active(&self) -> (r: bool)
        ensures
            r == self.active(),
    {
        self.duration > 0
    }

    pub fn modify_outgoing_damage(&self, damage: Fixed) -> (r: Fixed)
        ensures
            r == self.outgoing(damage),
    {
        if self.is_active() {
            scaled(damage, 3, 4)
        } else {
            damage
        }
    }

    /// Let `delta` pass.
    pub fn tick(&mut self, delta: Millis)
        ensures
            final(self).duration == decayed(old(self).duration, delta),
    {
        self.duration = decay(self.duration, delta);
    }
}

impl Default for Weak {
    fn default() -> (r: Self)
        ensures
            r.duration == 0,
    {
        Weak { duration: 0 }
    }
}

/// The damage of an attack of `base` by an attacker with `strength` and
/// `weak` on a target with `vulnerable`: strength is added first, a weak
/// attacker deals three quarters of that, a vulnerable target takes half as
/// much again, and the result is not below zero.
pub open spec fn attack_damage_of(
    base: Fixed,
    strength: Strength,
    weak: Weak,
    vulnerable: Vulnerable,
) -> Fixed {
    let raw = clamp(base + strength.bonus()) as Fixed;
    at_least_zero(vulnerable.incoming(weak.outgoing(raw)) as int) as Fixed
}

/// The damage of an attack, see [`attack_damage_of`].
pub fn attack_damage(base: Fixed, strength: &Strength, weak: &Weak, vulnerable: &Vulnerable) -> (r:
    Fixed)
    ensures
        r == attack_damage_of(base, *strength, *weak, *vulnerable),
        r >= 0,
{
    let raw = sum(base, strength.damage_bonus());
    let dealt = weak.modify_outgoing_damage(raw);
    let taken = vulnerable.modify_incoming_damage(dealt);
    floor_zero(taken)
}

/// Rage - gain block when playing attacks.
#[derive(Debug, Clone, Copy, PartialEq, Eq, Structural)]
pub struct RageEffect {
    pub block_per_attack: Fixed,
    pub duration: Fixed,
}

impl RageEffect {
    pub open spec fn active(self) -> bool {
        self.duration > 0
    }

    pub fn new(block_per_attack: Fixed, duration: Fixed) -> (r: Self)
        ensures
            r == (RageEffect { block_per_attack, duration }),
    {
        RageEffect { block_per_attack, duration }
    }

    pub fn is_active(&self) -> (r: bool)
        ensures
            r == self.active(),
    {
        self.duration > 0
    }
}

/// Metallicize - gain block continuously.
#[derive(Debug, Clone, Copy, PartialEq, Eq, Structural)]
pub struct MetallicizeEffect {
    pub block_per_second: Fixed,
}

impl MetallicizeEffect {
    pub fn new(block_per_second: Fixed) -> (r: Self)
        ensures
            r == (MetallicizeEffect { block_per_second }),
    {
        MetallicizeEffect { block_per_second }
    }
}

/// Demon Form - gain strength over time.  Strength is handed out in whole
/// points; the fraction not yet handed out is carried in `accumulated`.
#[derive(Debug, Clone, Copy, PartialEq, Eq, Structural)]
pub struct DemonFormEffect {
    pub strength_per_second: Fixed,
    pub accumulated: Fixed,
}

impl DemonFormEffect {
    /// What has built up after `delta`, before whole points are handed out.
    pub open spec fn built_up(self, delta: Millis) -> Fixed {
        clamp(self.accumulated + accrued(self.strength_per_second as int, delta as int)) as Fixed
    }

    /// The whole points of strength handed out after `delta`.
    pub open spec fn payout(self, delta: Millis) -> Fixed {
        if self.built_up(delta) >= ONE {
            ((self.built_up(delta) / ONE) * ONE) as Fixed
        } else {
            0
        }
    }

    /// The effect after `delta`: what was handed out is taken off.
    pub open spec fn ticked(self, delta: Millis) -> DemonFormEffect {
        DemonFormEffect {
            strength_per_second: self.strength_per_second,
            accumulated: (self.built_up(delta) - self.payout(delta)) as Fixed,
        }
    }

    pub fn new(strength_per_second: Fixed) -> (r: Self)
        ensures
            r == (DemonFormEffect { strength_per_second, accumulated: 0 }),
    {
        DemonFormEffect { strength_per_second, accumulated: 0 }
    }

    /// Let `delta` pass.  Returns the whole points of strength to hand out.
    pub fn tick(&mut self, delta: Millis) -> (gain: Fixed)
        ensures
            *final(self) == old(self).ticked(delta),
            gain == old(self).payout(delta),
            gain >= 0,
            gain % ONE == 0,
            old(self).built_up(delta) >= 0 ==> 0 <= final(self).accumulated < ONE,
    {
        self.accumulated = sum(self.accumulated, over_time(self.strength_per_second, delta));
        if self.accumulated >= ONE {
            let whole: Fixed = (self.accumulated / ONE) * ONE;
            self.accumulated = self.accumulated - whole;
            whole
        } else {
            0
        }
    }
}

/// Demon Form loses no strength to rounding: what is handed out and what
/// stays behind make up what had built up, and less than a point stays behind.
pub proof fn lemma_demon_form_loses_nothing(demon: DemonFormEffect, delta: Millis)
    ensures
        demon.payout(delta) + demon.ticked(delta).accumulated == demon.built_up(delta),
        demon.payout(delta) % ONE == 0,
        demon.built_up(delta) >= 0 ==> 0 <= demon.ticked(delta).accumulated < ONE,
{
    let built = demon.built_up(delta) as int;
    if built >= ONE {
        vstd::arithmetic::div_mod::lemma_fundamental_div_mod(built, ONE as int);
        vstd::arithmetic::div_mod::lemma_mod_bound(built, ONE as int);
        vstd::arithmetic::div_mod::lemma_mod_multiples_basic(built / (ONE as int), ONE as int);
    }
}

/// Barricade - block doesn't decay.
#[derive(Debug, Clone, Copy, PartialEq, Eq, Structural)]
pub struct BarricadeEffect;

/// Juggernaut - deal damage when gaining block.
#[derive(Debug, Clone, Copy, PartialEq, Eq, Structural)]
pub struct JuggernautEffect {
    pub damage_on_block: Fixed,
}

impl JuggernautEffect {
    pub fn new(damage_on_block: Fixed) -> (r: Self)
        ensures
            r == (JuggernautEffect { damage_on_block }),
    {
        JuggernautEffect { damage_on_block }
    }
}

/// Combust - periodic damage to self and enemies.
#[derive(Debug, Clone, Copy, PartialEq, Eq, Structural)]
pub struct CombustEffect {
    pub self_damage: Fixed,
    pub enemy_damage: Fixed,
    pub timer: Fixed,
}

impl CombustEffect {
    pub fn new(self_damage: Fixed, enemy_damage: Fixed) -> (r: Self)
        ensures
            r == (CombustEffect { self_damage, enemy_damage, timer: 0 }),
    {
        CombustEffect { self_damage, enemy_damage, timer: 0 }
    }
}

/// Dark Embrace - draw cards when exhausting.
#[derive(Debug, Clone, Copy, PartialEq, Eq, Structural)]
pub struct DarkEmbraceEffect {
    pub draw_on_exhaust: u32,
}

impl DarkEmbraceEffect {
    pub fn new(draw_on_exhaust: u32) -> (r: Self)
        ensures
            r == (DarkEmbraceEffect { draw_on_exhaust }),
    {
        DarkEmbraceEffect { draw_on_exhaust }
    }
}

/// Evolve - draw when a status card is drawn.
#[derive(Debug, Clone, Copy, PartialEq, Eq, Structural)]
pub struct EvolveEffect {
    pub draw_on_status: u32,
}

impl EvolveEffect {
    pub fn new(draw_on_status: u32) -> (r: Self)
        ensures
            r == (EvolveEffect { draw_on_status }),
    {
        EvolveEffect { draw_on_status }
    }
}

/// Feel No Pain - gain block when exhausting.
#[derive(Debug, Clone, Copy, PartialEq, Eq, Structural)]
pub struct FeelNoPainEffect {
    pub block_on_exhaust: Fixed,
}

impl FeelNoPainEffect {
    pub fn new(block_on_exhaust: Fixed) -> (r: Self)
        ensures
            r == (FeelNoPainEffect { block_on_exhaust }),
    {
        FeelNoPainEffect { block_on_exhaust }
    }
}

/// Fire Breathing - deal damage when a status card is drawn.
#[derive(Debug, Clone, Copy, PartialEq, Eq, Structural)]
pub struct FireBreathingEffect {
    pub damage_on_status_draw: Fixed,
}

impl FireBreathingEffect {
    pub fn new(damage_on_status_draw: Fixed) -> (r: Self)
        ensures
            r == (FireBreathingEffect { damage_on_status_draw }),
    {
        FireBreathingEffect { damage_on_status_draw }
    }
}

/// Rupture - gain strength when taking self-damage.
#[derive(Debug, Clone, Copy, PartialEq, Eq, Structural)]
pub struct RuptureEffect {
    pub strength_on_self_damage: Fixed,
}

impl RuptureEffect {
    pub fn new(strength_on_self_damage: Fixed) -> (r: Self)
        ensures
            r == (RuptureEffect { strength_on_self_damage }),
    {
        RuptureEffect { strength_on_self_damage }
    }
}

/// Corruption - skills cost 0 and exhaust.
#[derive(Debug, Clone, Copy, PartialEq, Eq, Structural)]
pub struct CorruptionEffect;

/// Brutality - periodic self damage and draw.
#[derive(Debug, Clone, Copy, PartialEq, Eq, Structural)]
pub struct BrutalityEffect {
    pub self_damage: Fixed,
    pub draw: u32,
    pub interval: Fixed,
    pub timer: Fixed,
}

impl BrutalityEffect {
    pub fn new(self_damage: Fixed, draw: u32, interval: Fixed) -> (r: Self)
        ensures
            r == (BrutalityEffect { self_damage, draw, interval, timer: 0 }),
    {
        BrutalityEffect { self_damage, draw, interval, timer: 0 }
    }
}

/// The powers a player has attached.  Each is attached at most once: playing
/// its card again replaces it.
#[derive(Debug, Clone, Copy, PartialEq, Eq, Structural)]
pub struct Powers {
    pub rage: Option<RageEffect>,
    pub metallicize: Option<MetallicizeEffect>,
    pub combust: Option<CombustEffect>,
    pub demon_form: Option<DemonFormEffect>,
    pub barricade: Option<BarricadeEffect>,
    pub juggernaut: Option<JuggernautEffect>,
    pub dark_embrace: Option<DarkEmbraceEffect>,
    pub evolve: Option<EvolveEffect>,
    pub feel_no_pain: Option<FeelNoPainEffect>,
    pub fire_breathing: Option<FireBreathingEffect>,
    pub rupture: Option<RuptureEffect>,
    pub corruption: Option<CorruptionEffect>,
    pub brutality: Option<BrutalityEffect>,
}

impl Powers {
    /// No power attached.
    pub open spec fn none() -> Powers {
        Powers {
            rage: None,
            metallicize: None,
            combust: None,
            demon_form: None,
            barricade: None,
            juggernaut: None,
            dark_embrace: None,
            evolve: None,
            feel_no_pain: None,
            fire_breathing: None,
            rupture: None,
            corruption: None,
            brutality: None,
        }
    }
}

impl Default for Powers {
    fn default() -> (r: Self)
        ensures
            r == Powers::none(),
    {
        Powers {
            rage: None,
            metallicize: None,
            combust: None,
            demon_form: None,
            barricade: None,
            juggernaut: None,
            dark_embrace: None,
            evolve: None,
            feel_no_pain: None,
            fire_breathing: None,
            rupture: None,
            corruption: None,
            brutality: None,
        }
    }
}

/// How many whole periods a timer holds.
pub open spec fn periods_in(timer: Fixed, period: Fixed) -> nat {
    if period > 0 && timer >= period {
        (timer / period) as nat
    } else {
        0
    }
}

/// What is left on a timer once its whole periods are taken off.
pub open spec fn timer_after(timer: Fixed, period: Fixed) -> Fixed {
    if period > 0 && timer >= period {
        (timer % period) as Fixed
    } else {
        timer
    }
}

/// The periods taken off a timer and what is left on it make up the timer,
/// and what is left is less than a period.
pub proof fn lemma_periods_account_for_time(timer: Fixed, period: Fixed)
    requires
        period > 0,
        timer >= 0,
    ensures
        periods_in(timer, period) * period + timer_after(timer, period) == timer,
        0 <= timer_after(timer, period) < period,
{
    if timer >= period {
        vstd::arithmetic::div_mod::lemma_fundamental_div_mod(timer as int, period as int);
        vstd::arithmetic::div_mod::lemma_mod_bound(timer as int, period as int);
        let whole = timer as int / period as int;
        assert(whole >= 0) by (nonlinear_arith)
            requires
                whole == timer as int / period as int,
                timer >= 0,
                period > 0,
        ;
        assert(whole * period == period * whole) by (nonlinear_arith);
    }
}

/// Time that passes in two steps pays out as many periods as the same time
/// in one step, and leaves the same on the timer: a long tick does what the
/// short ticks it stands for would have done.
pub proof fn lemma_periods_add_up(timer: Fixed, first: Millis, second: Millis, period: Fixed)
    requires
        period > 0,
        timer >= 0,
        timer + first + second <= i64::MAX,
    ensures
        ({
            let once = (timer + first + second) as Fixed;
            let halfway = (timer + first) as Fixed;
            let rest = (timer_after(halfway, period) + second) as Fixed;
            &&& periods_in(halfway, period) + periods_in(rest, period) == periods_in(once, period)
            &&& timer_after(rest, period) == timer_after(once, period)
        }),
{
    let once = (timer + first + second) as Fixed;
    let halfway = (timer + first) as Fixed;
    lemma_periods_account_for_time(halfway, period);
    let rest = (timer_after(halfway, period) + second) as Fixed;
    lemma_periods_account_for_time(rest, period);
    lemma_periods_account_for_time(once, period);
    let a = periods_in(halfway, period) as int;
    let b = periods_in(rest, period) as int;
    let c = periods_in(once, period) as int;
    let left = timer_after(rest, period) as int;
    let whole = timer_after(once, period) as int;
    let p = period as int;
    assert((a + b) * p + left == c * p + whole) by (nonlinear_arith)
        requires
            a * p + (rest - second) == halfway,
            b * p + left == rest,
            c * p + whole == once,
            once == halfway + second,
    ;
    assert(a + b == c && left == whole) by (nonlinear_arith)
        requires
            (a + b) * p + left == c * p + whole,
            0 <= left < p,
            0 <= whole < p,
    ;
}

/// Take the whole periods off a timer: how many there are, and what is left.
fn split_timer(timer: Fixed, period: Fixed) -> (r: (u64, Fixed))
    requires
        period > 0,
    ensures
        r.0 == periods_in(timer, period),
        r.1 == timer_after(timer, period),
{
    if timer >= period {
        assert(0 <= timer / period <= timer) by (nonlinear_arith)
            requires
                timer >= period,
                period > 0,
        ;
        ((timer / period) as u64, timer % period)
    } else {
        (0, timer)
    }
}

impl RageEffect {
    /// Rage after `delta`.
    pub open spec fn ticked(self, delta: Millis) -> RageEffect {
        RageEffect {
            block_per_attack: self.block_per_attack,
            duration: decayed(self.duration, delta),
        }
    }
}

impl PlayerView {
    /// The player after the timed effects have run for `delta`: Vulnerable,
    /// Weak and Rage run down, and Demon Form hands out the whole points of
    /// strength that have built up.
    pub open spec fn status_ticked(self, delta: Millis) -> PlayerView {
        PlayerView {
            vulnerable: Vulnerable { duration: decayed(self.vulnerable.duration, delta) },
            weak: Weak { duration: decayed(self.weak.duration, delta) },
            strength: match self.powers.demon_form {
                Some(demon) => self.strength.gained(demon.payout(delta)),
                None => self.strength,
            },
            powers: Powers {
                rage: match self.powers.rage {
                    Some(rage) => Some(rage.ticked(delta)),
                    None => None,
                },
                demon_form: match self.powers.demon_form {
                    Some(demon) => Some(demon.ticked(delta)),
                    None => None,
                },
                ..self.powers
            },
            ..self
        }
    }

    /// The player after block has decayed for `delta`.  Block does not decay
    /// under Barricade.
    pub open spec fn block_decayed(self, delta: Millis) -> PlayerView {
        if self.powers.barricade.is_none() && self.block.current > 0 {
            PlayerView {
                block: Block {
                    current: at_least_zero(
                        clamp(self.block.current - accrued(BLOCK_DECAY_RATE as int, delta as int)),
                    ) as Fixed,
                },
                ..self
            }
        } else {
            self
        }
    }
}

impl Table {
    /// The table after the acting player's Metallicize has run for `delta`:
    /// block is gained in proportion to the time, with no waiting for a whole
    /// second.
    pub open spec fn metallicize_ticked(self, delta: Millis) -> Table {
        match self.me.powers.metallicize {
            Some(metal) => if metal.block_per_second > 0 {
                self.block_gained(
                    Side::Me,
                    accrued(metal.block_per_second as int, delta as int) as Fixed,
                )
            } else {
                self
            },
            None => self,
        }
    }

    /// The table after one period of Combust: the acting player is hurt, then
    /// the opponent.
    pub open spec fn combust_round(self, combust: CombustEffect) -> Table {
        let own = if combust.self_damage > 0 {
            self.damaged(Side::Me, combust.self_damage, Some(Side::Me), DamageKind::Power)
        } else {
            self
        };
        if combust.enemy_damage > 0 {
            own.damaged(Side::Foe, combust.enemy_damage, Some(Side::Me), DamageKind::Power)
        } else {
            own
        }
    }

    /// The table after `rounds` periods of Combust.
    pub open spec fn combust_rounds(self, combust: CombustEffect, rounds: nat) -> Table
        decreases rounds,
    {
        if rounds == 0 {
            self
        } else {
            self.combust_rounds(combust, (rounds - 1) as nat).combust_round(combust)
        }
    }

    /// The table after the acting player's Combust has run for `delta`: every
    /// whole period that its timer holds is paid out, however many there are,
    /// and the rest stays on the timer.
    pub open spec fn combust_ticked(self, delta: Millis) -> Table {
        match self.me.powers.combust {
            Some(combust) => {
                let timer = clamp(combust.timer + delta) as Fixed;
                Table {
                    me: PlayerView {
                        powers: Powers {
                            combust: Some(
                                CombustEffect {
                                    timer: timer_after(timer, COMBUST_PERIOD),
                                    ..combust
                                },
                            ),
                            ..self.me.powers
                        },
                        ..self.me
                    },
                    ..self
                }.combust_rounds(combust, periods_in(timer, COMBUST_PERIOD))
            },
            None => self,
        }
    }

    /// The table after one period of Brutality: the acting player is hurt,
    /// then draws.
    pub open spec fn brutality_round(
        self,
        brutality: BrutalityEffect,
        registry: Seq<CardDefView>,
    ) -> Table {
        let own = if brutality.self_damage > 0 {
            self.damaged(Side::Me, brutality.self_damage, Some(Side::Me), DamageKind::Power)
        } else {
            self
        };
        if brutality.draw > 0 {
            own.draw_handled(brutality.draw as usize, registry)
        } else {
            own
        }
    }

    /// The table after `rounds` periods of Brutality.
    pub open spec fn brutality_rounds(
        self,
        brutality: BrutalityEffect,
        rounds: nat,
        registry: Seq<CardDefView>,
    ) -> Table
        decreases rounds,
    {
        if rounds == 0 {
            self
        } else {
            self.brutality_rounds(brutality, (rounds - 1) as nat, registry).brutality_round(
                brutality,
                registry,
            )
        }
    }

    /// The table after the acting player's Brutality has run for `delta`.  A
    /// Brutality whose interval is not positive does nothing.
    pub open spec fn brutality_ticked(self, delta: Millis, registry: Seq<CardDefView>) -> Table {
        match self.me.powers.brutality {
            Some(brutality) => if brutality.interval > 0 {
                let timer = clamp(brutality.timer + delta) as Fixed;
                Table {
                    me: PlayerView {
                        powers: Powers {
                            brutality: Some(
                                BrutalityEffect {
                                    timer: timer_after(timer, brutality.interval),
                                    ..brutality
                                },
                            ),
                            ..self.me.powers
                        },
                        ..self.me
                    },
                    ..self
                }.brutality_rounds(brutality, periods_in(timer, brutality.interval), registry)
            } else {
                self
            },
            None => self,
        }
    }

    /// The table after the acting player's periodic powers have run for
    /// `delta`: Metallicize, Combust, Brutality.
    pub open spec fn powers_ticked(self, delta: Millis, registry: Seq<CardDefView>) -> Table {
        self.metallicize_ticked(delta).combust_ticked(delta).brutality_ticked(delta, registry)
    }
}

/// Let the timed effects of `me` run for `delta`.
pub fn tick_status_effects_delta(delta: Millis, me: &mut PlayerBundle)
    ensures
        final(me)@ == old(me)@.status_ticked(delta),
{
    me.vulnerable.tick(delta);
    me.weak.tick(delta);
    match me.powers.rage {
        Some(rage) => {
            me.powers.rage = Some(
                RageEffect {
                    block_per_attack: rage.block_per_attack,
                    duration: decay(rage.duration, delta),
                },
            );
        },
        None => {},
    }
    match me.powers.demon_form {
        Some(demon) => {
            let mut demon = demon;
            let gain = demon.tick(delta);
            me.strength.gain(gain);
            me.powers.demon_form = Some(demon);
        },
        None => {},
    }
}

/// Let the periodic powers of `me` run for `delta`.
pub fn tick_power_effects_delta(
    delta: Millis,
    me: &mut PlayerBundle,
    foe: &mut PlayerBundle,
    log: &mut Vec<GameEvent>,
    registry: &CardRegistry,
)
    ensures
        Table::of(*final(me), *final(foe), *final(log)) == Table::of(
            *old(me),
            *old(foe),
            *old(log),
        ).powers_ticked(delta, registry@),
{
    match me.powers.metallicize {
        Some(metal) => {
            if metal.block_per_second > 0 {
                gain_block(me, foe, log, Side::Me, over_time(metal.block_per_second, delta));
            }
        },
        None => {},
    }
    match me.powers.combust {
        Some(combust) => {
            let (rounds, left) = split_timer(sum(combust.timer, delta as i64), COMBUST_PERIOD);
            me.powers.combust = Some(
                CombustEffect {
                    self_damage: combust.self_damage,
                    enemy_damage: combust.enemy_damage,
                    timer: left,
                },
            );
            let ghost start = Table::of(*me, *foe, *log);
            let mut done: u64 = 0;
            while done < rounds
                invariant
                    done <= rounds,
                    Table::of(*me, *foe, *log) == start.combust_rounds(combust, done as nat),
                decreases rounds - done,
            {
                if combust.self_damage > 0 {
                    deal_damage(
                        me,
                        foe,
                        log,
                        Side::Me,
                        combust.self_damage,
                        Some(Side::Me),
                        DamageKind::Power,
                    );
                }
                if combust.enemy_damage > 0 {
                    deal_damage(
                        me,
                        foe,
                        log,
                        Side::Foe,
                        combust.enemy_damage,
                        Some(Side::Me),
                        DamageKind::Power,
                    );
                }
                done = done + 1;
            }
        },
        None => {},
    }
    match me.powers.brutality {
        Some(brutality) => {
            if brutality.interval > 0 {
                let (rounds, left) = split_timer(
                    sum(brutality.timer, delta as i64),
                    brutality.interval,
                );
                me.powers.brutality = Some(
                    BrutalityEffect {
                        self_damage: brutality.self_damage,
                        draw: brutality.draw,
                        interval: brutality.interval,
                        timer: left,
                    },
                );
                let ghost start = Table::of(*me, *foe, *log);
                let mut done: u64 = 0;
                while done < rounds
                    invariant
                        done <= rounds,
                        Table::of(*me, *foe, *log) == start.brutality_rounds(
                            brutality,
                            done as nat,
                            registry@,
                        ),
                    decreases rounds - done,
                {
                    if brutality.self_damage > 0 {
                        deal_damage(
                            me,
                            foe,
                            log,
                            Side::Me,
                            brutality.self_damage,
                            Some(Side::Me),
                            DamageKind::Power,
                        );
                    }
                    if brutality.draw > 0 {
                        handle_draw_cards(me, foe, log, brutality.draw as usize, registry);
                    }
                    done = done + 1;
                }
            }
        },
        None => {},
    }
}

/// Let the block of `me` decay for `delta`, unless Barricade holds it.
pub fn tick_block_decay_delta(delta: Millis, me: &mut PlayerBundle)
    ensures
        final(me)@ == old(me)@.block_decayed(delta),
{
    if me.powers.barricade.is_none() && me.block.current > 0 {
        me.block.current = floor_zero(
            difference(me.block.current, over_time(BLOCK_DECAY_RATE, delta)),
        );
    }
}

} // verus!
