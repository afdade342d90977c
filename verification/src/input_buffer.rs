//! From an input word to the requests it makes.
//!
//! The same reconciliation serves a player at the keyboard and a remote
//! player whose word arrived over the network.

use vstd::prelude::*;
use crate::card::{lookup, CardDefView, CardRegistry, CardType};
use crate::event::{
    log_view, record, DrawCardsMessage, EventView, GameEvent, PlayCardMessage,
};
use crate::fixed::Fixed;
use crate::input::{card_flag, draw_requested, slot_requested, INPUT_DRAW, INPUT_SLOTS};
use crate::player::{PlayerBundle, PlayerView};
use crate::rules::{DRAW_COST, DRAW_COUNT};

verus! {

/// One-frame input buffer that UI and keyboard write into.
#[derive(Debug, Clone, Copy, PartialEq, Eq, Structural)]
pub struct PendingInput {
    pub flags: u16,
}

impl Default for PendingInput {
    fn default() -> (r: Self)
        ensures
            r.flags == 0,
    {
        PendingInput { flags: 0 }
    }
}

impl PendingInput {
    /// Add `flags` to what is pending.
    pub fn push_flags(&mut self, flags: u16)
        ensures
            final(self).flags == old(self).flags | flags,
    {
        self.flags = self.flags | flags;
    }

    /// Hand out what is pending and start afresh.
    pub fn take_flags(&mut self) -> (flags: u16)
        ensures
            flags == old(self).flags,
            final(self).flags == 0,
    {
        let flags = self.flags;
        self.flags = 0;
        flags
    }
}

/// What an input word asks for, as far as it is honoured.
#[derive(Debug, Clone, Copy, PartialEq, Eq, Structural)]
pub struct Requests {
    pub draw: Option<DrawCardsMessage>,
    pub play: Option<PlayCardMessage>,
}

/// The lowest hand slot at or above `from` that `flags` asks to play.
pub open spec fn pressed_slot_from(flags: u16, from: int) -> Option<int>
    decreases INPUT_SLOTS - from,
{
    if from < 0 || from >= INPUT_SLOTS {
        None
    } else if slot_requested(flags, from) {
        Some(from)
    } else {
        pressed_slot_from(flags, from + 1)
    }
}

/// The lowest hand slot that `flags` asks to play.
pub open spec fn pressed_slot(flags: u16) -> Option<int> {
    pressed_slot_from(flags, 0)
}

impl PlayerView {
    /// Whether a draw request in `flags` is honoured: it is made and the
    /// draw can be paid.
    pub open spec fn draws_on(self, flags: u16) -> bool {
        draw_requested(flags) && self.clock.cost.affords(DRAW_COST)
    }

    /// The player after the draw request in `flags`, if honoured, is paid.
    pub open spec fn draw_paid(self, flags: u16) -> PlayerView {
        if self.draws_on(flags) {
            PlayerView {
                clock: crate::cost::Clock { cost: self.clock.cost.spent(DRAW_COST), ..self.clock },
                ..self
            }
        } else {
            self
        }
    }

    /// What the player pays for the card `def`: nothing for a skill under
    /// Corruption.
    pub open spec fn effective_cost(self, def: CardDefView) -> Fixed {
        if self.powers.corruption.is_some() && def.card_type == CardType::Skill {
            0
        } else {
            def.cost
        }
    }

    /// The hand slot that a play request in `flags` is honoured for: the
    /// lowest slot asked for, where it holds a card that the registry knows and
    /// that the player can pay.  No other slot is looked at.
    pub open spec fn plays_on(self, flags: u16, registry: Seq<CardDefView>) -> Option<int> {
        match pressed_slot(flags) {
            Some(slot) => if slot < self.hand.len() {
                match lookup(registry, self.hand[slot]) {
                    Some(def) => if self.clock.cost.affords(self.effective_cost(def)) {
                        Some(slot)
                    } else {
                        None
                    },
                    None => None,
                }
            } else {
                None
            },
            None => None,
        }
    }

    /// The player after the play request in `flags`, if honoured, is paid.
    pub open spec fn play_paid(self, flags: u16, registry: Seq<CardDefView>) -> PlayerView {
        match self.plays_on(flags, registry) {
            Some(slot) => PlayerView {
                clock: crate::cost::Clock {
                    cost: self.clock.cost.spent(
                        self.effective_cost(lookup(registry, self.hand[slot]).unwrap()),
                    ),
                    ..self.clock
                },
                ..self
            },
            None => self,
        }
    }

    /// The player after the requests of `flags` are paid: the draw first,
    /// then the play out of what is left.
    pub open spec fn input_paid(self, flags: u16, registry: Seq<CardDefView>) -> PlayerView {
        self.draw_paid(flags).play_paid(flags, registry)
    }

    /// The requests of `flags` that are honoured.
    pub open spec fn requests(self, flags: u16, registry: Seq<CardDefView>) -> Requests {
        Requests {
            draw: if self.draws_on(flags) {
                Some(DrawCardsMessage { player: self.handle, count: DRAW_COUNT })
            } else {
                None
            },
            play: match self.draw_paid(flags).plays_on(flags, registry) {
                Some(slot) => Some(
                    PlayCardMessage { player: self.handle, hand_index: slot as usize },
                ),
                None => None,
            },
        }
    }
}

/// The log after the play request among `requests` has been written to it.
pub open spec fn requests_logged(log: Seq<EventView>, requests: Requests) -> Seq<EventView> {
    match requests.play {
        Some(msg) => log.push(EventView::PlayCard(msg)),
        None => log,
    }
}

/// At most one play is honoured for an input word, and it is for the lowest
/// slot that the word asks for: the slot is asked for, no lower slot is, and
/// where that slot holds a known card that can be paid, the play is honoured.
pub proof fn lemma_one_play_per_input(player: PlayerView, flags: u16, registry: Seq<CardDefView>)
    ensures
        match player.plays_on(flags, registry) {
            Some(slot) => {
                &&& slot_requested(flags, slot)
                &&& forall|lower: int| 0 <= lower < slot ==> !slot_requested(flags, lower)
                &&& 0 <= slot < player.hand.len()
            },
            None => true,
        },
        forall|slot: int|
            {
                &&& #[trigger] slot_requested(flags, slot)
                &&& forall|lower: int| 0 <= lower < slot ==> !slot_requested(flags, lower)
                &&& slot < player.hand.len()
                &&& lookup(registry, player.hand[slot]).is_some()
                &&& player.clock.cost.affords(
                    player.effective_cost(lookup(registry, player.hand[slot]).unwrap()),
                )
            } ==> player.plays_on(flags, registry) == Some(slot),
{
    lemma_pressed_slot_is_lowest(flags, 0);
}

/// The slot found from `from` on is asked for, and no slot between `from` and
/// it is; where none is found, none from `from` on is asked for.
pub proof fn lemma_pressed_slot_is_lowest(flags: u16, from: int)
    requires
        0 <= from,
    ensures
        match pressed_slot_from(flags, from) {
            Some(slot) => from <= slot < INPUT_SLOTS && slot_requested(flags, slot) && forall|
                lower: int,
            | from <= lower < slot ==> !slot_requested(flags, lower),
            None => forall|slot: int| from <= slot ==> !slot_requested(flags, slot),
        },
    decreases INPUT_SLOTS - from,
{
    if from < INPUT_SLOTS && !slot_requested(flags, from) {
        lemma_pressed_slot_is_lowest(flags, from + 1);
    }
}

/// Turn the input word `flags` of `me` into requests.  A draw is honoured
/// where the draw cost can be paid.  Of the hand slots asked for only the
/// lowest is looked at; its play is honoured where the slot holds a card that
/// the registry knows and that can be paid.  What is honoured is paid at once,
/// and nothing is paid otherwise.
pub fn apply_local_input_flags(
    flags: u16,
    me: &mut PlayerBundle,
    log: &mut Vec<GameEvent>,
    registry: &CardRegistry,
) -> (requests: Requests)
    ensures
        final(me)@ == old(me)@.input_paid(flags, registry@),
        requests == old(me)@.requests(flags, registry@),
        log_view(final(log)@) == requests_logged(log_view(old(log)@), requests),
{
    let mut draw: Option<DrawCardsMessage> = None;
    let mut play: Option<PlayCardMessage> = None;
    if flags & INPUT_DRAW != 0 && me.clock.cost.try_spend(DRAW_COST) {
        draw = Some(DrawCardsMessage { player: me.handle, count: DRAW_COUNT });
    }
    let ghost paid = me@;
    let mut i: usize = 0;
    while i < INPUT_SLOTS
        invariant
            i <= INPUT_SLOTS,
            play.is_none(),
            me@ == paid,
            paid == old(me)@.draw_paid(flags),
            draw == old(me)@.requests(flags, registry@).draw,
            *log == *old(log),
            pressed_slot(flags) == pressed_slot_from(flags, i as int),
        decreases INPUT_SLOTS - i,
    {
        let pressed = match card_flag(i) {
            Some(flag) => flags & flag != 0,
            None => false,
        };
        if pressed {
            match me.hand.get(i) {
                Some(card_id) => {
                    match registry.get(card_id) {
                        Some(card_def) => {
                            let skill = match card_def.card_type {
                                CardType::Skill => true,
                                _ => false,
                            };
                            let effective_cost = if me.powers.corruption.is_some() && skill {
                                0
                            } else {
                                card_def.cost
                            };
                            if me.clock.cost.try_spend(effective_cost) {
                                let msg = PlayCardMessage { player: me.handle, hand_index: i };
                                record(log, GameEvent::PlayCard(msg));
                                play = Some(msg);
                            }
                        },
                        None => {},
                    }
                },
                None => {},
            }
            return Requests { draw, play };
        }
        i = i + 1;
    }
    Requests { draw, play }
}

/// Take what is pending and turn it into requests of `me`.  With nothing
/// pending, nothing is asked for and nothing changes.
pub fn apply_pending_inputs(
    pending: &mut PendingInput,
    me: &mut PlayerBundle,
    log: &mut Vec<GameEvent>,
    registry: &CardRegistry,
) -> (requests: Requests)
    ensures
        final(pending).flags == 0,
        final(me)@ == old(me)@.input_paid(old(pending).flags, registry@),
        requests == old(me)@.requests(old(pending).flags, registry@),
        log_view(final(log)@) == requests_logged(log_view(old(log)@), requests),
        old(pending).flags == 0 ==> final(me)@ == old(me)@ && final(log)@ == old(log)@
            && requests == (Requests { draw: None, play: None }),
{
    let flags = pending.take_flags();
    if flags == 0 {
        proof {
            lemma_nothing_pressed(old(me)@, registry@);
        }
        return Requests { draw: None, play: None };
    }
    apply_local_input_flags(flags, me, log, registry)
}

/// The empty input word asks for nothing.
pub proof fn lemma_nothing_pressed(player: PlayerView, registry: Seq<CardDefView>)
    ensures
        !player.draws_on(0),
        player.plays_on(0, registry).is_none(),
        player.input_paid(0, registry) == player,
        player.requests(0, registry) == (Requests { draw: None, play: None }),
{
    assert(0u16 & 0x0001u16 == 0) by (bit_vector);
    lemma_pressed_slot_is_lowest(0, 0);
    assert forall|slot: int| !slot_requested(0, slot) by {
        let flag = crate::input::slot_flag(slot);
        assert(0u16 & flag == 0) by (bit_vector);
    }
}

} // verus!
