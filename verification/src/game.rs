//! The match: two players and the pipeline that moves them from tick to tick.
//!
//! One pipeline serves every way of running a match.  Whoever drives it, a
//! frame loop on the wall clock or a rollback scheduler that replays frames,
//! hands in the time that has passed and the two input words; everything else
//! follows from the state.

use vstd::prelude::*;
use crate::card::{CardDefView, CardId, CardRegistry};
use crate::deck::{handle_draw_cards, handle_play_card, PlayOutcome};
use crate::effect::apply_card_effects;
use crate::invariants::{
    lemma_deal_keeps, lemma_replay_conserves_cards, lemma_replay_keeps_players_sound, lemma_tick_conserves_cards,
    lemma_tick_keeps_players_sound,
};
use crate::event::{
    lemma_log_view, log_view, record, status_cards_added, status_cards_in, EventView, GameEvent,
};
use crate::ownership::{lemma_replay_conserves_each_card, lemma_tick_conserves_each_card};
use crate::fixed::{Fixed, Millis};
use crate::health::{DeathMessage, GameResult};
use crate::input::GameInput;
use crate::input_buffer::{apply_local_input_flags, requests_logged, Requests};
use crate::player::{PlayerBundle, PlayerHandle, PlayerView, Table};
use crate::rules::OPENING_HAND;
use crate::status::{tick_block_decay_delta, tick_power_effects_delta, tick_status_effects_delta};

verus! {

/// Whether the game is running offline or via rollback networking.
#[derive(Debug, Clone, Copy, PartialEq, Eq, Structural)]
pub enum GameMode {
    Offline,
    Online,
}

impl Default for GameMode {
    fn default() -> (r: Self)
        ensures
            r == GameMode::Offline,
    {
        GameMode::Offline
    }
}

pub fn is_online(mode: &GameMode) -> (r: bool)
    ensures
        r == (*mode == GameMode::Online),
{
    match mode {
        GameMode::Online => true,
        GameMode::Offline => false,
    }
}

pub fn is_offline(mode: &GameMode) -> (r: bool)
    ensures
        r == (*mode == GameMode::Offline),
{
    match mode {
        GameMode::Offline => true,
        GameMode::Online => false,
    }
}

/// What a clock reading is combined with to seed a match that nobody else
/// has to agree on.
pub const CLOCK_SEED_MASK: u64 = 0x9e37_79b9_7f4a_7c15;

/// Per-match deterministic seed (shared across peers in online matches).
#[derive(Debug, Clone, Copy, PartialEq, Eq, Structural)]
pub struct MatchSeed(pub u64);

impl MatchSeed {
    /// The seed of an offline match started at `nanos` on the clock.
    pub fn from_clock(nanos: u64) -> (r: Self)
        ensures
            r.0 == nanos ^ CLOCK_SEED_MASK,
    {
        MatchSeed(nanos ^ CLOCK_SEED_MASK)
    }
}

/// The stages of a tick, in the order in which they run.
#[derive(Debug, Clone, Copy, PartialEq, Eq, Structural)]
pub enum GameplaySystems {
    /// The cost clock and its acceleration.
    Tick,
    /// Input words become requests.
    Input,
    /// Cards are drawn and played.
    Deck,
    /// Played cards take effect.
    Effects,
    /// Timed effects and periodic powers run.
    Status,
    /// Deaths are found.
    Health,
}

/// What one tick is run with: the time that has passed and the input word of
/// each player.
#[derive(Debug, Clone, Copy, PartialEq, Eq, Structural)]
pub struct Frame {
    pub delta: Millis,
    pub first: GameInput,
    pub second: GameInput,
}

impl Table {
    /// The table after the acting player's clock has run for `delta`.
    pub open spec fn clock_ticked(self, delta: Millis) -> Table {
        Table { me: PlayerView { clock: self.me.clock.ticked(delta), ..self.me }, ..self }
    }

    /// The table after the acting player's input word has been reconciled.
    pub open spec fn input_reconciled(self, flags: u16, registry: Seq<CardDefView>) -> Table {
        Table {
            me: self.me.input_paid(flags, registry),
            foe: self.foe,
            log: requests_logged(self.log, self.me.requests(flags, registry)),
        }
    }

    /// The table after the acting player's requests were carried out: the
    /// draw first, then the play.
    pub open spec fn deck_moved(self, requests: Requests, registry: Seq<CardDefView>) -> Table {
        let drawn = match requests.draw {
            Some(msg) => self.draw_handled(msg.count, registry),
            None => self,
        };
        match requests.play {
            Some(msg) => drawn.play_handled(msg.hand_index, registry),
            None => drawn,
        }
    }

    /// The card that carrying out `requests` has the acting player play.
    pub open spec fn card_moved(self, requests: Requests, registry: Seq<CardDefView>) -> Option<
        PlayOutcome,
    > {
        let drawn = match requests.draw {
            Some(msg) => self.draw_handled(msg.count, registry),
            None => self,
        };
        match requests.play {
            Some(msg) => drawn.play_outcome(msg.hand_index, registry),
            None => None,
        }
    }

    /// The table after the card that the acting player played, if any, has
    /// taken effect.
    pub open spec fn effects_resolved(
        self,
        outcome: Option<PlayOutcome>,
        registry: Seq<CardDefView>,
    ) -> Table {
        match outcome {
            Some(outcome) => self.card_resolved(outcome, registry),
            None => self,
        }
    }

    /// The table after the acting player's timed effects have run for
    /// `delta`.
    pub open spec fn status_ticked(self, delta: Millis) -> Table {
        Table { me: self.me.status_ticked(delta), ..self }
    }

    /// The table after the acting player's block has decayed for `delta`.
    pub open spec fn block_decayed(self, delta: Millis) -> Table {
        Table { me: self.me.block_decayed(delta), ..self }
    }

    /// The table after the death of the acting player, if dead, is logged.
    pub open spec fn death_checked(self) -> Table {
        if self.me.health.current <= 0 {
            self.logged(EventView::Death(DeathMessage { entity: self.me.handle }))
        } else {
            self
        }
    }

    /// The table after both clocks have run for `delta`.
    pub open spec fn clocks_ticked(self, delta: Millis) -> Table {
        self.clock_ticked(delta).flipped().clock_ticked(delta).flipped()
    }

    /// The requests that the input words of `frame` make, the acting player's
    /// first.
    pub open spec fn requests_made(self, frame: Frame, registry: Seq<CardDefView>) -> (
        Requests,
        Requests,
    ) {
        (
            self.me.requests(frame.first.flags, registry),
            self.foe.requests(frame.second.flags, registry),
        )
    }

    /// The table after both input words of `frame` have been reconciled.
    pub open spec fn inputs_reconciled(self, frame: Frame, registry: Seq<CardDefView>) -> Table {
        self.input_reconciled(frame.first.flags, registry).flipped().input_reconciled(
            frame.second.flags,
            registry,
        ).flipped()
    }

    /// The cards that carrying out `requests` has the players play, the
    /// acting player's first.
    pub open spec fn cards_moved(
        self,
        requests: (Requests, Requests),
        registry: Seq<CardDefView>,
    ) -> (Option<PlayOutcome>, Option<PlayOutcome>) {
        (
            self.card_moved(requests.0, registry),
            self.deck_moved(requests.0, registry).flipped().card_moved(requests.1, registry),
        )
    }

    /// The table after the requests of both players were carried out, the
    /// acting player's first.
    pub open spec fn decks_moved(
        self,
        requests: (Requests, Requests),
        registry: Seq<CardDefView>,
    ) -> Table {
        self.deck_moved(requests.0, registry).flipped().deck_moved(requests.1, registry).flipped()
    }

    /// The table after the cards that the players played have taken effect,
    /// the acting player's first.
    pub open spec fn cards_resolved(
        self,
        cards: (Option<PlayOutcome>, Option<PlayOutcome>),
        registry: Seq<CardDefView>,
    ) -> Table {
        self.effects_resolved(cards.0, registry).flipped().effects_resolved(
            cards.1,
            registry,
        ).flipped()
    }

    /// The table after time has told on both players for `delta`: first the
    /// timed effects of each, then the periodic powers of each, then the decay
    /// of each one's block.
    pub open spec fn effects_ticked(self, delta: Millis, registry: Seq<CardDefView>) -> Table {
        let statuses = self.status_ticked(delta).flipped().status_ticked(delta).flipped();
        let powers = statuses.powers_ticked(delta, registry).flipped().powers_ticked(
            delta,
            registry,
        ).flipped();
        powers.block_decayed(delta).flipped().block_decayed(delta).flipped()
    }

    /// The table after the deaths of the players, if dead, are logged.
    pub open spec fn deaths_checked(self) -> Table {
        self.death_checked().flipped().death_checked().flipped()
    }
}

/// A match between two players.
#[derive(Debug, Clone, PartialEq, Eq)]
pub struct Combat {
    pub first: PlayerBundle,
    pub second: PlayerBundle,
}

/// The mathematical form of a [`Combat`].
pub struct CombatView {
    pub first: PlayerView,
    pub second: PlayerView,
}

impl View for Combat {
    type V = CombatView;

    open spec fn view(&self) -> CombatView {
        CombatView { first: self.first@, second: self.second@ }
    }
}

/// A match after some frames, and what was logged on the way.
pub struct Replay {
    pub combat: CombatView,
    pub log: Seq<EventView>,
}

impl CombatView {
    /// Whether the match has ended: a player is dead.
    pub open spec fn over(self) -> bool {
        self.first.health.current <= 0 || self.second.health.current <= 0
    }

    /// How the match stands for the player `handle`: lost once that player is
    /// dead, won once the other is, and running until then.
    pub open spec fn result_for(self, handle: PlayerHandle) -> GameResult {
        if !self.over() {
            GameResult::Playing
        } else if self.first.handle == handle {
            if self.first.health.current <= 0 {
                GameResult::Defeat
            } else {
                GameResult::Victory
            }
        } else if self.second.health.current <= 0 {
            GameResult::Defeat
        } else {
            GameResult::Victory
        }
    }

    /// The table of one tick: the two players with the first one acting, and
    /// the log of the tick.
    ///
    /// A match that has ended stays as it is.  Otherwise the stages run in
    /// order, each for the first player and then for the second: the cost
    /// clocks; the input words, which become requests; the decks, where
    /// requests are carried out; the effects of the cards played; the timed
    /// effects, the periodic powers and the decay of block; and the check for
    /// deaths.
    #[verifier::opaque]
    pub open spec fn tick_table(self, frame: Frame, registry: Seq<CardDefView>) -> Table {
        let start = Table { me: self.first, foe: self.second, log: Seq::empty() };
        if self.over() {
            start
        } else {
            let clocks = start.clocks_ticked(frame.delta);
            let inputs = clocks.inputs_reconciled(frame, registry);
            let decks = inputs.decks_moved(clocks.requests_made(frame, registry), registry);
            let effects = decks.cards_resolved(
                inputs.cards_moved(clocks.requests_made(frame, registry), registry),
                registry,
            );
            effects.effects_ticked(frame.delta, registry).deaths_checked()
        }
    }

    /// The table after both players have drawn their opening hands, the
    /// first player first.
    pub open spec fn dealt_table(self, registry: Seq<CardDefView>) -> Table {
        (Table { me: self.first, foe: self.second, log: Seq::empty() }).draw_handled(
            OPENING_HAND,
            registry,
        ).flipped().draw_handled(OPENING_HAND, registry).flipped()
    }

    /// The match after both players have drawn their opening hands.
    pub open spec fn dealt(self, registry: Seq<CardDefView>) -> CombatView {
        CombatView {
            first: self.dealt_table(registry).me,
            second: self.dealt_table(registry).foe,
        }
    }

    /// The match after one tick.
    pub open spec fn ticked(self, frame: Frame, registry: Seq<CardDefView>) -> CombatView {
        CombatView {
            first: self.tick_table(frame, registry).me,
            second: self.tick_table(frame, registry).foe,
        }
    }

    /// The match after `frames`, one tick each, and the log of those ticks.
    pub open spec fn replayed(self, frames: Seq<Frame>, registry: Seq<CardDefView>) -> Replay
        decreases frames.len(),
    {
        if frames.len() == 0 {
            Replay { combat: self, log: Seq::empty() }
        } else {
            let before = self.replayed(frames.drop_last(), registry);
            Replay {
                combat: before.combat.ticked(frames.last(), registry),
                log: before.log + before.combat.tick_table(frames.last(), registry).log,
            }
        }
    }
}

impl Combat {
    /// A match at its start.  Each player's deck is shuffled with a seed of
    /// the player's own, made from the match seed and the player's handle.
    pub fn new(
        match_seed: MatchSeed,
        cost_rate: Fixed,
        first_deck: Vec<CardId>,
        second_deck: Vec<CardId>,
    ) -> (r: Self)
        ensures
            r@.first == PlayerView::fresh(
                match_seed.0,
                0,
                cost_rate,
                first_deck@,
                crate::rules::INITIAL_HP,
            ),
            r@.second == PlayerView::fresh(
                match_seed.0,
                1,
                cost_rate,
                second_deck@,
                crate::rules::INITIAL_HP,
            ),
            r@.wf(),
            r@.first.sound(),
            r@.second.sound(),
            !r@.over(),
    {
        Combat {
            first: PlayerBundle::new(match_seed.0, 0, cost_rate, first_deck),
            second: PlayerBundle::new(match_seed.0, 1, cost_rate, second_deck),
        }
    }

    /// Have both players draw their opening hands, the first player first,
    /// and return the log of it.
    pub fn deal(&mut self, registry: &CardRegistry) -> (events: Vec<GameEvent>)
        ensures
            final(self)@ == old(self)@.dealt(registry@),
            log_view(events@) == old(self)@.dealt_table(registry@).log,
            final(self)@.first.card_count() == old(self)@.first.card_count(),
            final(self)@.second.card_count() == old(self)@.second.card_count(),
            old(self)@.first.sound() ==> final(self)@.first.sound(),
            old(self)@.second.sound() ==> final(self)@.second.sound(),
    {
        proof {
            lemma_deal_keeps(old(self)@, registry@);
        }
        let mut log: Vec<GameEvent> = Vec::new();
        assert(log_view(log@) =~= Seq::<EventView>::empty());
        handle_draw_cards(&mut self.first, &mut self.second, &mut log, OPENING_HAND, registry);
        handle_draw_cards(&mut self.second, &mut self.first, &mut log, OPENING_HAND, registry);
        log
    }

    /// A copy of the match, to go back to after a rollback.
    pub fn snapshot(&self) -> (copy: Self)
        ensures
            copy@ == self@,
    {
        Combat { first: self.first.snapshot(), second: self.second.snapshot() }
    }

    /// Whether the match has ended.
    pub fn is_over(&self) -> (r: bool)
        ensures
            r == self@.over(),
    {
        self.first.health.is_dead() || self.second.health.is_dead()
    }

    /// How the match stands for the player `handle`.
    pub fn handle_game_over(&self, handle: PlayerHandle) -> (r: GameResult)
        ensures
            r == self@.result_for(handle),
    {
        if !self.is_over() {
            GameResult::Playing
        } else if self.first.handle.0 == handle.0 {
            if self.first.health.is_dead() {
                GameResult::Defeat
            } else {
                GameResult::Victory
            }
        } else if self.second.health.is_dead() {
            GameResult::Defeat
        } else {
            GameResult::Victory
        }
    }

    /// Run one tick and return its log.  No card is made or lost on the way:
    /// card by card, a player owns what was owned before and the status cards
    /// that the log adds for that player.
    pub fn tick(&mut self, frame: &Frame, registry: &CardRegistry) -> (events: Vec<GameEvent>)
        ensures
            final(self)@ == old(self)@.ticked(*frame, registry@),
            log_view(events@) == old(self)@.tick_table(*frame, registry@).log,
            old(self)@.over() ==> final(self)@ == old(self)@ && events@.len() == 0,
            old(self)@.wf() ==> final(self)@.wf(),
            old(self)@.wf() && old(self)@.first.sound() ==> final(self)@.first.sound(),
            old(self)@.wf() && old(self)@.second.sound() ==> final(self)@.second.sound(),
            old(self)@.wf() ==> final(self)@.first.card_count() == old(self)@.first.card_count()
                + status_cards_added(log_view(events@), old(self)@.first.handle),
            old(self)@.wf() ==> final(self)@.second.card_count() == old(self)@.second.card_count()
                + status_cards_added(log_view(events@), old(self)@.second.handle),
            old(self)@.wf() ==> final(self)@.first.all_cards() == old(self)@.first.all_cards().add(
                status_cards_in(log_view(events@), old(self)@.first.handle),
            ),
            old(self)@.wf() ==> final(self)@.second.all_cards()
                == old(self)@.second.all_cards().add(
                status_cards_in(log_view(events@), old(self)@.second.handle),
            ),
    {
        proof {
            if old(self)@.wf() {
                lemma_tick_conserves_cards(old(self)@, *frame, registry@);
                lemma_tick_keeps_players_sound(old(self)@, *frame, registry@);
                lemma_tick_conserves_each_card(old(self)@, *frame, registry@);
            }
        }
        reveal(CombatView::tick_table);
        let mut log: Vec<GameEvent> = Vec::new();
        assert(log_view(log@) =~= Seq::<EventView>::empty());
        if self.is_over() {
            return log;
        }
        tick_clocks(frame.delta, &mut self.first, &mut self.second, &mut log);
        let requests = reconcile_inputs(frame, &mut self.first, &mut self.second, &mut log, registry);
        let cards = move_decks(&requests, &mut self.first, &mut self.second, &mut log, registry);
        resolve_cards(&cards, &mut self.first, &mut self.second, &mut log, registry);
        tick_effects(frame.delta, &mut self.first, &mut self.second, &mut log, registry);
        check_deaths(&self.first, &self.second, &mut log);
        log
    }

    /// Run one tick for each of `frames`, in order, and return the log of
    /// them all.  This is how a stretch of the match is simulated again after
    /// a rollback.
    pub fn replay(&mut self, frames: &Vec<Frame>, registry: &CardRegistry) -> (events: Vec<
        GameEvent,
    >)
        ensures
            final(self)@ == old(self)@.replayed(frames@, registry@).combat,
            log_view(events@) == old(self)@.replayed(frames@, registry@).log,
            old(self)@.wf() ==> final(self)@.wf(),
            old(self)@.wf() && old(self)@.first.sound() ==> final(self)@.first.sound(),
            old(self)@.wf() && old(self)@.second.sound() ==> final(self)@.second.sound(),
            old(self)@.wf() ==> final(self)@.first.card_count() == old(self)@.first.card_count()
                + status_cards_added(log_view(events@), old(self)@.first.handle),
            old(self)@.wf() ==> final(self)@.second.card_count() == old(self)@.second.card_count()
                + status_cards_added(log_view(events@), old(self)@.second.handle),
            old(self)@.wf() ==> final(self)@.first.all_cards() == old(self)@.first.all_cards().add(
                status_cards_in(log_view(events@), old(self)@.first.handle),
            ),
            old(self)@.wf() ==> final(self)@.second.all_cards()
                == old(self)@.second.all_cards().add(
                status_cards_in(log_view(events@), old(self)@.second.handle),
            ),
    {
        proof {
            if old(self)@.wf() {
                lemma_replay_conserves_cards(old(self)@, frames@, registry@);
                lemma_replay_keeps_players_sound(old(self)@, frames@, registry@);
                lemma_replay_conserves_each_card(old(self)@, frames@, registry@);
            }
        }
        let mut events: Vec<GameEvent> = Vec::new();
        let mut i: usize = 0;
        assert(frames@.take(0) =~= Seq::<Frame>::empty());
        assert(log_view(events@) =~= Seq::<EventView>::empty());
        while i < frames.len()
            invariant
                i <= frames.len(),
                self@ == old(self)@.replayed(frames@.take(i as int), registry@).combat,
                log_view(events@) == old(self)@.replayed(frames@.take(i as int), registry@).log,
            decreases frames.len() - i,
        {
            assert(frames@.take(i + 1).drop_last() =~= frames@.take(i as int));
            let mut tick_events = self.tick(&frames[i], registry);
            proof {
                lemma_log_view(events@, tick_events@);
            }
            events.append(&mut tick_events);
            i = i + 1;
        }
        assert(frames@.take(frames@.len() as int) =~= frames@);
        events
    }
}

/// The first stage of a tick: both clocks run.
pub fn tick_clocks(
    delta: Millis,
    first: &mut PlayerBundle,
    second: &mut PlayerBundle,
    log: &mut Vec<GameEvent>,
)
    ensures
        Table::of(*final(first), *final(second), *final(log)) == Table::of(
            *old(first),
            *old(second),
            *old(log),
        ).clocks_ticked(delta),
{
    tick_clock(delta, first);
    tick_clock(delta, second);
}

/// The second stage of a tick: both input words become requests.
pub fn reconcile_inputs(
    frame: &Frame,
    first: &mut PlayerBundle,
    second: &mut PlayerBundle,
    log: &mut Vec<GameEvent>,
    registry: &CardRegistry,
) -> (requests: (Requests, Requests))
    ensures
        Table::of(*final(first), *final(second), *final(log)) == Table::of(
            *old(first),
            *old(second),
            *old(log),
        ).inputs_reconciled(*frame, registry@),
        requests == Table::of(*old(first), *old(second), *old(log)).requests_made(
            *frame,
            registry@,
        ),
{
    let first_requests = apply_local_input_flags(frame.first.flags, first, log, registry);
    let second_requests = apply_local_input_flags(frame.second.flags, second, log, registry);
    (first_requests, second_requests)
}

/// The third stage of a tick: the requests of both players are carried out.
pub fn move_decks(
    requests: &(Requests, Requests),
    first: &mut PlayerBundle,
    second: &mut PlayerBundle,
    log: &mut Vec<GameEvent>,
    registry: &CardRegistry,
) -> (cards: (Option<PlayOutcome>, Option<PlayOutcome>))
    ensures
        Table::of(*final(first), *final(second), *final(log)) == Table::of(
            *old(first),
            *old(second),
            *old(log),
        ).decks_moved(*requests, registry@),
        cards == Table::of(*old(first), *old(second), *old(log)).cards_moved(
            *requests,
            registry@,
        ),
{
    let first_card = move_cards(&requests.0, first, second, log, registry);
    let second_card = move_cards(&requests.1, second, first, log, registry);
    (first_card, second_card)
}

/// The fourth stage of a tick: the cards played take effect.
pub fn resolve_cards(
    cards: &(Option<PlayOutcome>, Option<PlayOutcome>),
    first: &mut PlayerBundle,
    second: &mut PlayerBundle,
    log: &mut Vec<GameEvent>,
    registry: &CardRegistry,
)
    ensures
        Table::of(*final(first), *final(second), *final(log)) == Table::of(
            *old(first),
            *old(second),
            *old(log),
        ).cards_resolved(*cards, registry@),
{
    resolve_effects(&cards.0, first, second, log, registry);
    resolve_effects(&cards.1, second, first, log, registry);
}

/// The fifth stage of a tick: timed effects, periodic powers and the decay
/// of block.
pub fn tick_effects(
    delta: Millis,
    first: &mut PlayerBundle,
    second: &mut PlayerBundle,
    log: &mut Vec<GameEvent>,
    registry: &CardRegistry,
)
    ensures
        Table::of(*final(first), *final(second), *final(log)) == Table::of(
            *old(first),
            *old(second),
            *old(log),
        ).effects_ticked(delta, registry@),
{
    tick_status_effects_delta(delta, first);
    tick_status_effects_delta(delta, second);
    tick_power_effects_delta(delta, first, second, log, registry);
    tick_power_effects_delta(delta, second, first, log, registry);
    tick_block_decay_delta(delta, first);
    tick_block_decay_delta(delta, second);
}

/// The last stage of a tick: the deaths of the players are logged.
pub fn check_deaths(first: &PlayerBundle, second: &PlayerBundle, log: &mut Vec<GameEvent>)
    ensures
        Table::of(*first, *second, *final(log)) == Table::of(
            *first,
            *second,
            *old(log),
        ).deaths_checked(),
{
    check_death(first, log);
    check_death(second, log);
}

/// Let the clock of `me` run for `delta`: the acceleration first, then the
/// cost.
pub fn tick_clock(delta: Millis, me: &mut PlayerBundle)
    ensures
        final(me)@ == (PlayerView { clock: old(me)@.clock.ticked(delta), ..old(me)@ }),
{
    crate::cost::tick_acceleration_delta(delta, &mut me.clock);
    crate::cost::accumulate_cost_delta(delta, &mut me.clock);
}

/// Carry out the requests of `me`: the draw first, then the play.  Returns
/// the card played, if any.
pub fn move_cards(
    requests: &Requests,
    me: &mut PlayerBundle,
    foe: &mut PlayerBundle,
    log: &mut Vec<GameEvent>,
    registry: &CardRegistry,
) -> (outcome: Option<PlayOutcome>)
    ensures
        Table::of(*final(me), *final(foe), *final(log)) == Table::of(
            *old(me),
            *old(foe),
            *old(log),
        ).deck_moved(*requests, registry@),
        outcome == Table::of(*old(me), *old(foe), *old(log)).card_moved(*requests, registry@),
{
    match requests.draw {
        Some(msg) => {
            handle_draw_cards(me, foe, log, msg.count, registry);
        },
        None => {},
    }
    match requests.play {
        Some(msg) => handle_play_card(me, foe, log, msg.hand_index, registry),
        None => None,
    }
}

/// Let the card that `me` played, if any, take effect.
pub fn resolve_effects(
    outcome: &Option<PlayOutcome>,
    me: &mut PlayerBundle,
    foe: &mut PlayerBundle,
    log: &mut Vec<GameEvent>,
    registry: &CardRegistry,
)
    ensures
        Table::of(*final(me), *final(foe), *final(log)) == Table::of(
            *old(me),
            *old(foe),
            *old(log),
        ).effects_resolved(*outcome, registry@),
{
    match outcome {
        Some(outcome) => {
            apply_card_effects(outcome, me, foe, log, registry);
        },
        None => {},
    }
}

/// Log the death of `player`, if dead.
pub fn check_death(player: &PlayerBundle, log: &mut Vec<GameEvent>)
    ensures
        log_view(final(log)@) == if player@.health.current <= 0 {
            log_view(old(log)@).push(EventView::Death(DeathMessage { entity: player@.handle }))
        } else {
            log_view(old(log)@)
        },
{
    if player.health.is_dead() {
        record(log, GameEvent::Death(DeathMessage { entity: player.handle }));
    }
}

/// Two runs of the same frames from the same state end in the same state
/// and write the same log: nothing but the state, the frames and the registry
/// goes into a tick.
pub proof fn lemma_replay_is_deterministic(
    one: CombatView,
    other: CombatView,
    frames: Seq<Frame>,
    again: Seq<Frame>,
    registry: Seq<CardDefView>,
)
    requires
        one == other,
        frames == again,
    ensures
        one.replayed(frames, registry) == other.replayed(again, registry),
{
}

/// Running frames in one go is the same as running some of them, taking the
/// state that this gives, and running the rest from there.  So a stretch that
/// is simulated again from a saved state ends where the first run did.
pub proof fn lemma_replay_resumes(
    combat: CombatView,
    done: Seq<Frame>,
    rest: Seq<Frame>,
    registry: Seq<CardDefView>,
)
    ensures
        combat.replayed(done + rest, registry).combat == combat.replayed(
            done,
            registry,
        ).combat.replayed(rest, registry).combat,
        combat.replayed(done + rest, registry).log == combat.replayed(done, registry).log
            + combat.replayed(done, registry).combat.replayed(rest, registry).log,
    decreases rest.len(),
{
    let middle = combat.replayed(done, registry);
    if rest.len() == 0 {
        assert(done + rest =~= done);
        assert(middle.log + Seq::<EventView>::empty() =~= middle.log);
    } else {
        assert((done + rest).drop_last() =~= done + rest.drop_last());
        assert((done + rest).last() == rest.last());
        lemma_replay_resumes(combat, done, rest.drop_last(), registry);
        let before = middle.combat.replayed(rest.drop_last(), registry);
        let tick_log = before.combat.tick_table(rest.last(), registry).log;
        assert((middle.log + before.log) + tick_log =~= middle.log + (before.log + tick_log));
    }
}

/// A match that has ended does not move: its ticks change nothing and log
/// nothing.
pub proof fn lemma_ended_match_rests(combat: CombatView, frame: Frame, registry: Seq<CardDefView>)
    requires
        combat.over(),
    ensures
        combat.ticked(frame, registry) == combat,
        combat.tick_table(frame, registry).log == Seq::<EventView>::empty(),
{
    reveal(CombatView::tick_table);
}

} // verus!
