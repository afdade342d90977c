//! Health, block and thorns, and what a hit does to them.

use vstd::prelude::*;
use crate::fixed::{
    at_least_zero, clamp, difference, floor_zero, lesser, scaled, smaller, sum, Fixed, ONE,
};
use crate::event::{record, EventView, GameEvent};
use crate::player::{PlayerBundle, PlayerHandle, PlayerView, Side, Table};

verus! {

/// How the match stands for one player.
#[derive(Debug, Clone, Copy, PartialEq, Eq, Hash, Structural)]
pub enum GameResult {
    Playing,
    Victory,
    Defeat,
}

impl Default for GameResult {
    fn default() -> (r: Self)
        ensures
            r == GameResult::Playing,
    {
        GameResult::Playing
    }
}

/// Health of a player, kept within `0..=max`.
#[derive(Debug, Clone, Copy, PartialEq, Eq, Structural)]
pub struct Health {
    pub current: Fixed,
    pub max: Fixed,
}

impl Health {
    /// Health lies between zero and its maximum.
    pub open spec fn wf(self) -> bool {
        0 <= self.current <= self.max
    }

    /// The health left after losing `amount`.
    pub open spec fn damaged(self, amount: int) -> Health {
        Health {
            current: lesser(
                at_least_zero(clamp(self.current - amount)),
                at_least_zero(self.max as int),
            ) as Fixed,
            max: self.max,
        }
    }

    /// The health reached by gaining `amount`.
    pub open spec fn healed(self, amount: int) -> Health {
        Health {
            current: at_least_zero(lesser(clamp(self.current + amount), self.max as int)) as Fixed,
            max: self.max,
        }
    }

    /// The share of the maximum that is left, as a fixed-point fraction.
    pub open spec fn share(self) -> int {
        if self.max == 0 {
            0
        } else {
            clamp((self.current * ONE) / (self.max as int))
        }
    }

    pub fn new(max: Fixed) -> (r: Self)
        ensures
            r == (Health { current: max, max }),
            max >= 0 ==> r.wf(),
    {
        Health { current: max, max }
    }

    /// Lose `amount` health; health stops at zero.
    pub fn take_damage(&mut self, amount: Fixed)
        ensures
            *final(self) == old(self).damaged(amount as int),
            old(self).max >= 0 ==> final(self).wf(),
            old(self).wf() && amount >= 0 ==> final(self).current == at_least_zero(
                old(self).current - amount,
            ),
    {
        let left = floor_zero(difference(self.current, amount));
        self.current = smaller(left, floor_zero(self.max));
    }

    /// Gain `amount` health; health stops at its maximum.
    pub fn heal(&mut self, amount: Fixed)
        ensures
            *final(self) == old(self).healed(amount as int),
            old(self).max >= 0 ==> final(self).wf(),
            old(self).wf() && amount >= 0 ==> final(self).current == lesser(
                old(self).current + amount,
                old(self).max as int,
            ),
    {
        self.current = floor_zero(smaller(sum(self.current, amount), self.max));
    }

    pub fn is_dead(&self) -> (r: bool)
        ensures
            r == (self.current <= 0),
    {
        self.current <= 0
    }

    /// The share of the maximum that is left: `ONE` for full health.  Zero
    /// where the maximum is zero.
    pub fn percentage(&self) -> (r: Fixed)
        ensures
            r == self.share(),
            self.wf() && self.max > 0 ==> 0 <= r <= ONE,
    {
        if self.max == 0 {
            return 0;
        }
        assert(self.wf() && self.max > 0 ==> 0 <= (self.current * 1000) / (self.max as int)
            <= 1000) by (nonlinear_arith);
        scaled(self.current, ONE, self.max)
    }
}

impl Default for Health {
    fn default() -> (r: Self)
        ensures
            r == (Health { current: 100_000, max: 100_000 }),
    {
        Health::new(100_000)
    }
}

/// Damage reduction shield that is consumed first.
#[derive(Debug, Clone, Copy, PartialEq, Eq, Structural)]
pub struct Block {
    pub current: Fixed,
}

impl Block {
    /// The block held after gaining `amount`.
    pub open spec fn gained(self, amount: int) -> Block {
        Block { current: at_least_zero(clamp(self.current + amount)) as Fixed }
    }

    pub fn gain(&mut self, amount: Fixed)
        ensures
            *final(self) == old(self).gained(amount as int),
            final(self).current >= 0,
    {
        self.current = floor_zero(sum(self.current, amount));
    }
}

impl Default for Block {
    fn default() -> (r: Self)
        ensures
            r.current == 0,
    {
        Block { current: 0 }
    }
}

/// Reflects damage back to attackers.
#[derive(Debug, Clone, Copy, PartialEq, Eq, Structural)]
pub struct Thorns {
    pub damage: Fixed,
}

impl Thorns {
    /// The thorns held after gaining `amount`.
    pub open spec fn gained(self, amount: int) -> Thorns {
        Thorns { damage: at_least_zero(clamp(self.damage + amount)) as Fixed }
    }

    pub fn gain(&mut self, amount: Fixed)
        ensures
            *final(self) == old(self).gained(amount as int),
            final(self).damage >= 0,
    {
        self.damage = floor_zero(sum(self.damage, amount));
    }
}

impl Default for Thorns {
    fn default() -> (r: Self)
        ensures
            r.damage == 0,
    {
        Thorns { damage: 0 }
    }
}

/// Where a hit comes from.  Only an attack is answered by thorns.
#[derive(Debug, Clone, Copy, PartialEq, Eq, Structural)]
pub enum DamageKind {
    /// A card's attack.
    Attack,
    /// Damage reflected by thorns.
    Thorns,
    /// Damage done by a power or by a card to its own player.
    Power,
}

/// Deal damage to a player.
#[derive(Debug, Clone, Copy, PartialEq, Eq, Structural)]
pub struct DamageMessage {
    pub target: PlayerHandle,
    pub amount: Fixed,
    pub source: Option<PlayerHandle>,
    pub kind: DamageKind,
}

/// Heal a player.
#[derive(Debug, Clone, Copy, PartialEq, Eq, Structural)]
pub struct HealMessage {
    pub target: PlayerHandle,
    pub amount: Fixed,
}

/// A player gains block.
#[derive(Debug, Clone, Copy, PartialEq, Eq, Structural)]
pub struct GainBlockMessage {
    pub target: PlayerHandle,
    pub amount: Fixed,
}

/// A player gains thorns.
#[derive(Debug, Clone, Copy, PartialEq, Eq, Structural)]
pub struct GainThornsMessage {
    pub target: PlayerHandle,
    pub amount: Fixed,
}

/// Thorns of `source` answer an attack of `target`.
#[derive(Debug, Clone, Copy, PartialEq, Eq, Structural)]
pub struct ThornsDamageMessage {
    pub target: PlayerHandle,
    pub amount: Fixed,
    pub source: PlayerHandle,
}

/// A player's health has reached zero.
#[derive(Debug, Clone, Copy, PartialEq, Eq, Structural)]
pub struct DeathMessage {
    pub entity: PlayerHandle,
}

/// What is left of a hit of `amount` once `block` has absorbed what it can.
pub open spec fn unblocked(block: Fixed, amount: Fixed) -> int {
    let incoming = at_least_zero(amount as int);
    clamp(incoming - lesser(incoming, block as int))
}

/// The block left after a hit of `amount`.
pub open spec fn block_after(block: Fixed, amount: Fixed) -> Block {
    let incoming = at_least_zero(amount as int);
    Block { current: at_least_zero(clamp(block - lesser(incoming, block as int))) as Fixed }
}

/// The health left after a hit of `amount` on a player with `block`.
pub open spec fn health_after(health: Health, block: Fixed, amount: Fixed) -> Health {
    if unblocked(block, amount) > 0 {
        health.damaged(unblocked(block, amount))
    } else {
        health
    }
}

/// What the target's thorns send back for a hit: every attack is answered,
/// whatever its amount, and only by positive thorns.
pub open spec fn reflected(thorns: Thorns, amount: Fixed, kind: DamageKind) -> Option<Fixed> {
    if kind == DamageKind::Attack && thorns.damage > 0 {
        Some(thorns.damage)
    } else {
        None
    }
}

/// Apply a hit of `amount` to `health` behind `block`: block absorbs first,
/// the rest comes off health.  Returns what `thorns` send back.
pub fn absorb_hit(
    health: &mut Health,
    block: &mut Block,
    thorns: &Thorns,
    amount: Fixed,
    kind: DamageKind,
) -> (back: Option<Fixed>)
    ensures
        *final(block) == block_after(old(block).current, amount),
        *final(health) == health_after(*old(health), old(block).current, amount),
        back == reflected(*thorns, amount, kind),
{
    let incoming = floor_zero(amount);
    let absorbed = smaller(incoming, block.current);
    block.current = floor_zero(difference(block.current, absorbed));
    let remaining = difference(incoming, absorbed);
    if remaining > 0 {
        health.take_damage(remaining);
    }
    match kind {
        DamageKind::Attack => if thorns.damage > 0 {
            Some(thorns.damage)
        } else {
            None
        },
        _ => None,
    }
}

impl PlayerView {
    /// The player after a hit of `amount`.
    pub open spec fn hit(self, amount: Fixed) -> PlayerView {
        PlayerView {
            block: block_after(self.block.current, amount),
            health: health_after(self.health, self.block.current, amount),
            ..self
        }
    }
}

impl PlayerBundle {
    /// Take a hit of `amount`.  Returns what the player's thorns send back.
    pub fn absorb(&mut self, amount: Fixed, kind: DamageKind) -> (back: Option<Fixed>)
        ensures
            final(self)@ == old(self)@.hit(amount),
            back == reflected(old(self).thorns, amount, kind),
    {
        absorb_hit(&mut self.health, &mut self.block, &self.thorns, amount, kind)
    }
}

impl Table {
    /// The handle of the player on `side`.
    pub open spec fn handle(self, side: Side) -> PlayerHandle {
        self.player(side).handle
    }

    /// The side on which the player `handle` sits: the acting player where
    /// both carry it.
    pub open spec fn side_of(self, handle: PlayerHandle) -> Option<Side> {
        if self.me.handle == handle {
            Some(Side::Me)
        } else if self.foe.handle == handle {
            Some(Side::Foe)
        } else {
            None
        }
    }

    /// The message that reports a hit.
    pub open spec fn damage_message(
        self,
        target: Side,
        amount: Fixed,
        source: Option<Side>,
        kind: DamageKind,
    ) -> DamageMessage {
        DamageMessage {
            target: self.handle(target),
            amount,
            source: match source {
                Some(side) => Some(self.handle(side)),
                None => None,
            },
            kind,
        }
    }

    /// The table after the player on `target` is hit for `amount`.  The hit is
    /// logged and taken.  Thorns of the target answer an attack whose source is
    /// known: the answer is logged, once as thorns and once as the hit that it
    /// is, and the source takes it.  That hit is of the thorns kind, so nothing
    /// answers it.
    pub open spec fn damaged(
        self,
        target: Side,
        amount: Fixed,
        source: Option<Side>,
        kind: DamageKind,
    ) -> Table {
        let victim = self.player(target);
        let taken = self.logged(
            EventView::Damage(self.damage_message(target, amount, source, kind)),
        ).with_player(target, victim.hit(amount));
        match (reflected(victim.thorns, amount, kind), source) {
            (Some(back), Some(from)) => {
                let told = taken.logged(
                    EventView::ThornsDamage(
                        ThornsDamageMessage {
                            target: taken.handle(from),
                            amount: back,
                            source: taken.handle(target),
                        },
                    ),
                ).logged(
                    EventView::Damage(
                        taken.damage_message(from, back, Some(target), DamageKind::Thorns),
                    ),
                );
                told.with_player(from, told.player(from).hit(back))
            },
            _ => taken,
        }
    }

    /// The table after the player on `target` is healed by `amount`.
    pub open spec fn healed(self, target: Side, amount: Fixed) -> Table {
        let player = self.player(target);
        self.logged(
            EventView::Heal(HealMessage { target: player.handle, amount }),
        ).with_player(target, PlayerView { health: player.health.healed(amount as int), ..player })
    }

    /// The table after the player on `target` gains `amount` block.
    pub open spec fn block_gained(self, target: Side, amount: Fixed) -> Table {
        let player = self.player(target);
        self.logged(
            EventView::GainBlock(GainBlockMessage { target: player.handle, amount }),
        ).with_player(target, PlayerView { block: player.block.gained(amount as int), ..player })
    }

    /// The table after the player on `target` gains `amount` thorns.
    pub open spec fn thorns_gained(self, target: Side, amount: Fixed) -> Table {
        let player = self.player(target);
        self.logged(
            EventView::GainThorns(GainThornsMessage { target: player.handle, amount }),
        ).with_player(target, PlayerView { thorns: player.thorns.gained(amount as int), ..player })
    }

    /// The table after `msg` is handled: nothing happens where its target is
    /// neither player, and a source that is neither player counts as unknown.
    pub open spec fn damage_handled(self, msg: DamageMessage) -> Table {
        match self.side_of(msg.target) {
            Some(target) => self.damaged(
                target,
                msg.amount,
                match msg.source {
                    Some(handle) => self.side_of(handle),
                    None => None,
                },
                msg.kind,
            ),
            None => self,
        }
    }

    /// Whether the player on `side` is dead.
    pub open spec fn dead(self, side: Side) -> bool {
        self.player(side).health.current <= 0
    }
}

/// The side on which the player `handle` sits.
pub fn which_side(me: &PlayerBundle, foe: &PlayerBundle, handle: PlayerHandle) -> (side: Option<
    Side,
>)
    ensures
        forall|log: Vec<GameEvent>| side == Table::of(*me, *foe, log).side_of(handle),
{
    if me.handle.0 == handle.0 {
        Some(Side::Me)
    } else if foe.handle.0 == handle.0 {
        Some(Side::Foe)
    } else {
        None
    }
}

/// Hit the player on `target` for `amount`: block absorbs first, the rest
/// comes off health, and thorns answer an attack.
pub fn deal_damage(
    me: &mut PlayerBundle,
    foe: &mut PlayerBundle,
    log: &mut Vec<GameEvent>,
    target: Side,
    amount: Fixed,
    source: Option<Side>,
    kind: DamageKind,
)
    ensures
        Table::of(*final(me), *final(foe), *final(log)) == Table::of(
            *old(me),
            *old(foe),
            *old(log),
        ).damaged(target, amount, source, kind),
{
    let target_handle = match target {
        Side::Me => me.handle,
        Side::Foe => foe.handle,
    };
    let source_handle = match source {
        Some(Side::Me) => Some(me.handle),
        Some(Side::Foe) => Some(foe.handle),
        None => None,
    };
    record(log, GameEvent::Damage(DamageMessage { target: target_handle, amount, source: source_handle, kind }));
    let back = match target {
        Side::Me => me.absorb(amount, kind),
        Side::Foe => foe.absorb(amount, kind),
    };
    match (back, source) {
        (Some(back), Some(from)) => {
            let from_handle = match from {
                Side::Me => me.handle,
                Side::Foe => foe.handle,
            };
            record(log, GameEvent::ThornsDamage(
                    ThornsDamageMessage { target: from_handle, amount: back, source: target_handle },
                ),
            );
            record(log, GameEvent::Damage(
                    DamageMessage {
                        target: from_handle,
                        amount: back,
                        source: Some(target_handle),
                        kind: DamageKind::Thorns,
                    },
                ),
            );
            match from {
                Side::Me => {
                    me.absorb(back, DamageKind::Thorns);
                },
                Side::Foe => {
                    foe.absorb(back, DamageKind::Thorns);
                },
            }
        },
        _ => {},
    }
}

/// Heal the player on `target` by `amount`.
pub fn heal(
    me: &mut PlayerBundle,
    foe: &mut PlayerBundle,
    log: &mut Vec<GameEvent>,
    target: Side,
    amount: Fixed,
)
    ensures
        Table::of(*final(me), *final(foe), *final(log)) == Table::of(
            *old(me),
            *old(foe),
            *old(log),
        ).healed(target, amount),
{
    match target {
        Side::Me => {
            record(log, GameEvent::Heal(HealMessage { target: me.handle, amount }));
            me.health.heal(amount);
        },
        Side::Foe => {
            record(log, GameEvent::Heal(HealMessage { target: foe.handle, amount }));
            foe.health.heal(amount);
        },
    }
}

/// The player on `target` gains `amount` block.
pub fn gain_block(
    me: &mut PlayerBundle,
    foe: &mut PlayerBundle,
    log: &mut Vec<GameEvent>,
    target: Side,
    amount: Fixed,
)
    ensures
        Table::of(*final(me), *final(foe), *final(log)) == Table::of(
            *old(me),
            *old(foe),
            *old(log),
        ).block_gained(target, amount),
{
    match target {
        Side::Me => {
            record(log, GameEvent::GainBlock(GainBlockMessage { target: me.handle, amount }));
            me.block.gain(amount);
        },
        Side::Foe => {
            record(log, GameEvent::GainBlock(GainBlockMessage { target: foe.handle, amount }));
            foe.block.gain(amount);
        },
    }
}

/// The player on `target` gains `amount` thorns.
pub fn gain_thorns(
    me: &mut PlayerBundle,
    foe: &mut PlayerBundle,
    log: &mut Vec<GameEvent>,
    target: Side,
    amount: Fixed,
)
    ensures
        Table::of(*final(me), *final(foe), *final(log)) == Table::of(
            *old(me),
            *old(foe),
            *old(log),
        ).thorns_gained(target, amount),
{
    match target {
        Side::Me => {
            record(log, GameEvent::GainThorns(GainThornsMessage { target: me.handle, amount }));
            me.thorns.gain(amount);
        },
        Side::Foe => {
            record(log, GameEvent::GainThorns(GainThornsMessage { target: foe.handle, amount }));
            foe.thorns.gain(amount);
        },
    }
}

/// Handle a damage message: find its target and its source among the two
/// players and deal the damage.  A message for neither player is ignored.
pub fn handle_damage(
    msg: &DamageMessage,
    me: &mut PlayerBundle,
    foe: &mut PlayerBundle,
    log: &mut Vec<GameEvent>,
)
    ensures
        Table::of(*final(me), *final(foe), *final(log)) == Table::of(
            *old(me),
            *old(foe),
            *old(log),
        ).damage_handled(*msg),
{
    let source = match msg.source {
        Some(handle) => which_side(me, foe, handle),
        None => None,
    };
    match which_side(me, foe, msg.target) {
        Some(target) => deal_damage(me, foe, log, target, msg.amount, source, msg.kind),
        None => {},
    }
}

/// Handle a heal message.  A message for neither player is ignored.
pub fn handle_heal(
    msg: &HealMessage,
    me: &mut PlayerBundle,
    foe: &mut PlayerBundle,
    log: &mut Vec<GameEvent>,
)
    ensures
        Table::of(*final(me), *final(foe), *final(log)) == match Table::of(
            *old(me),
            *old(foe),
            *old(log),
        ).side_of(msg.target) {
            Some(target) => Table::of(*old(me), *old(foe), *old(log)).healed(target, msg.amount),
            None => Table::of(*old(me), *old(foe), *old(log)),
        },
{
    match which_side(me, foe, msg.target) {
        Some(target) => heal(me, foe, log, target, msg.amount),
        None => {},
    }
}

/// Handle a block message.  A message for neither player is ignored.
pub fn handle_gain_block(
    msg: &GainBlockMessage,
    me: &mut PlayerBundle,
    foe: &mut PlayerBundle,
    log: &mut Vec<GameEvent>,
)
    ensures
        Table::of(*final(me), *final(foe), *final(log)) == match Table::of(
            *old(me),
            *old(foe),
            *old(log),
        ).side_of(msg.target) {
            Some(target) => Table::of(*old(me), *old(foe), *old(log)).block_gained(
                target,
                msg.amount,
            ),
            None => Table::of(*old(me), *old(foe), *old(log)),
        },
{
    match which_side(me, foe, msg.target) {
        Some(target) => gain_block(me, foe, log, target, msg.amount),
        None => {},
    }
}

/// Handle a thorns message.  A message for neither player is ignored.
pub fn handle_gain_thorns(
    msg: &GainThornsMessage,
    me: &mut PlayerBundle,
    foe: &mut PlayerBundle,
    log: &mut Vec<GameEvent>,
)
    ensures
        Table::of(*final(me), *final(foe), *final(log)) == match Table::of(
            *old(me),
            *old(foe),
            *old(log),
        ).side_of(msg.target) {
            Some(target) => Table::of(*old(me), *old(foe), *old(log)).thorns_gained(
                target,
                msg.amount,
            ),
            None => Table::of(*old(me), *old(foe), *old(log)),
        },
{
    match which_side(me, foe, msg.target) {
        Some(target) => gain_thorns(me, foe, log, target, msg.amount),
        None => {},
    }
}

/// Turn the answer of thorns into the hit that it is: a damage message of
/// the thorns kind, which no thorns answer in turn.
///
/// [`deal_damage`] does not call this: it deals the hit of the thorns itself,
/// right after the attack, and logs both the answer and the hit.  So a
/// `ThornsDamage` entry of the log reports a hit that has been taken.  Handing
/// such an entry to this function, and the message it gives to
/// [`handle_damage`], deals that hit a second time.  The function is for
/// thorns messages that come from elsewhere than the log.
pub fn handle_thorns_damage(msg: &ThornsDamageMessage) -> (hit: DamageMessage)
    ensures
        hit == (DamageMessage {
            target: msg.target,
            amount: msg.amount,
            source: Some(msg.source),
            kind: DamageKind::Thorns,
        }),
{
    DamageMessage {
        target: msg.target,
        amount: msg.amount,
        source: Some(msg.source),
        kind: DamageKind::Thorns,
    }
}

/// Thorns answer an attack once.  An attack from a known source that meets
/// thorns, be its amount zero, adds three entries to the log: the attack, the
/// answer of the thorns, and the hit that the answer is.  That hit is of the thorns kind, so the thorns of the
/// attacker do not answer it.  Any other hit adds its own entry and no more.
pub proof fn lemma_thorns_answer_once(
    t: Table,
    target: Side,
    amount: Fixed,
    source: Option<Side>,
    kind: DamageKind,
)
    ensures
        ({
            let after = t.damaged(target, amount, source, kind);
            let answered = kind == DamageKind::Attack && t.player(
                target,
            ).thorns.damage > 0 && source.is_some();
            &&& answered ==> {
                &&& after.log.len() == t.log.len() + 3
                &&& after.log.subrange(0, t.log.len() as int) == t.log
                &&& after.log[t.log.len() as int] == EventView::Damage(
                    t.damage_message(target, amount, source, kind),
                )
                &&& after.log[t.log.len() as int + 1] == EventView::ThornsDamage(
                    ThornsDamageMessage {
                        target: t.handle(source.unwrap()),
                        amount: t.player(target).thorns.damage,
                        source: t.handle(target),
                    },
                )
                &&& after.log[t.log.len() as int + 2] == EventView::Damage(
                    DamageMessage {
                        target: t.handle(source.unwrap()),
                        amount: t.player(target).thorns.damage,
                        source: Some(t.handle(target)),
                        kind: DamageKind::Thorns,
                    },
                )
            }
            &&& !answered ==> after.log == t.log.push(
                EventView::Damage(t.damage_message(target, amount, source, kind)),
            )
        }),
{
    let after = t.damaged(target, amount, source, kind);
    assert(after.log.subrange(0, t.log.len() as int) =~= t.log);
}

} // verus!
