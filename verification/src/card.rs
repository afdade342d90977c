//! Card definitions and the registry that holds them.

use vstd::prelude::*;
use crate::fixed::Fixed;

verus! {

/// Identifies a card definition.  By convention 1-99 are attacks, 100-199
/// skills, 200-299 powers and 300-399 status cards.
#[derive(Debug, Clone, Copy, PartialEq, Eq, Hash, Structural)]
pub struct CardId(pub u32);

/// Card type classification.
#[derive(Debug, Clone, Copy, PartialEq, Eq, Hash, Structural)]
pub enum CardType {
    /// Offensive cards that deal damage
    Attack,
    /// Utility cards: block, draw, buffs
    Skill,
    /// Permanent effects that persist for the match
    Power,
    /// Status cards (wounds, burns)
    Status,
}

/// Card rarity for deck building.
#[derive(Debug, Clone, Copy, PartialEq, Eq, Hash, Structural)]
pub enum CardRarity {
    Starter,
    Common,
    Uncommon,
    Rare,
    Special,
}

impl Default for CardRarity {
    fn default() -> (r: Self)
        ensures
            r == CardRarity::Starter,
    {
        CardRarity::Starter
    }
}

/// What a card does when played.
#[derive(Debug)]
pub enum CardEffect {
    /// Deal damage to the opponent
    Damage(Fixed),
    /// Deal damage several times
    MultiHit { damage: Fixed, hits: u32 },
    /// Heal self
    Heal(Fixed),
    /// Draw cards
    Draw(u32),
    /// Gain block
    Block(Fixed),
    /// Gain thorns
    Thorns(Fixed),
    /// Gain strength
    Strength(Fixed),
    /// Make the opponent vulnerable for a time
    Vulnerable(Fixed),
    /// Make oneself vulnerable for a time
    SelfVulnerable(Fixed),
    /// Weaken the opponent for a time
    Weak(Fixed),
    /// Raise the energy rate for a time
    Accelerate { bonus_rate: Fixed, duration: Fixed },
    /// Deal damage equal to current block
    BodySlam,
    /// Lose health (negative) or gain health (otherwise)
    Bloodletting(Fixed),
    /// Double current block
    DoubleBlock,
    /// Double current strength
    DoubleStrength,
    /// Gain block whenever an attack is played
    Rage(Fixed),
    /// Gain block continuously
    Metallicize(Fixed),
    /// Every second, damage oneself and the opponent
    Combust { self_damage: Fixed, enemy_damage: Fixed },
    /// Gain strength over time
    DemonForm(Fixed),
    /// Block no longer decays
    Barricade,
    /// Deal damage when gaining block
    Juggernaut(Fixed),
    /// Draw when a card is exhausted
    DarkEmbrace { draw: u32 },
    /// Draw when a status card is drawn
    Evolve { draw: u32 },
    /// Gain block when a card is exhausted
    FeelNoPain { block: Fixed },
    /// Deal damage when a status card is drawn
    FireBreathing { damage: Fixed },
    /// Gain strength when taking self-damage
    Rupture { strength: Fixed },
    /// Skills cost nothing and are exhausted when played
    Corruption,
    /// Periodically damage oneself and draw
    Brutality { self_damage: Fixed, draw: u32, interval: Fixed },
    /// The card is exhausted when played
    Exhaust,
    /// Add a status card to the discard pile
    AddStatus(CardId),
    /// Apply several effects in order
    Combo(Vec<CardEffect>),
}

/// The mathematical form of a [`CardEffect`]: the same tree, with a sequence
/// where the effect holds a vector.
pub enum EffectTree {
    Damage(Fixed),
    MultiHit { damage: Fixed, hits: u32 },
    Heal(Fixed),
    Draw(u32),
    Block(Fixed),
    Thorns(Fixed),
    Strength(Fixed),
    Vulnerable(Fixed),
    SelfVulnerable(Fixed),
    Weak(Fixed),
    Accelerate { bonus_rate: Fixed, duration: Fixed },
    BodySlam,
    Bloodletting(Fixed),
    DoubleBlock,
    DoubleStrength,
    Rage(Fixed),
    Metallicize(Fixed),
    Combust { self_damage: Fixed, enemy_damage: Fixed },
    DemonForm(Fixed),
    Barricade,
    Juggernaut(Fixed),
    DarkEmbrace { draw: u32 },
    Evolve { draw: u32 },
    FeelNoPain { block: Fixed },
    FireBreathing { damage: Fixed },
    Rupture { strength: Fixed },
    Corruption,
    Brutality { self_damage: Fixed, draw: u32, interval: Fixed },
    Exhaust,
    AddStatus(CardId),
    Combo(Seq<EffectTree>),
}

impl View for CardEffect {
    type V = EffectTree;

    open spec fn view(&self) -> EffectTree {
        tree_of(*self)
    }
}

/// The tree that `effect` holds.
pub open spec fn tree_of(effect: CardEffect) -> EffectTree
    decreases effect,
{
    match effect {
        CardEffect::Damage(a) => EffectTree::Damage(a),
        CardEffect::MultiHit { damage, hits } => EffectTree::MultiHit {
            damage,
            hits,
        },
        CardEffect::Heal(a) => EffectTree::Heal(a),
        CardEffect::Draw(n) => EffectTree::Draw(n),
        CardEffect::Block(a) => EffectTree::Block(a),
        CardEffect::Thorns(a) => EffectTree::Thorns(a),
        CardEffect::Strength(a) => EffectTree::Strength(a),
        CardEffect::Vulnerable(a) => EffectTree::Vulnerable(a),
        CardEffect::SelfVulnerable(a) => EffectTree::SelfVulnerable(a),
        CardEffect::Weak(a) => EffectTree::Weak(a),
        CardEffect::Accelerate { bonus_rate, duration } => EffectTree::Accelerate {
            bonus_rate,
            duration,
        },
        CardEffect::BodySlam => EffectTree::BodySlam,
        CardEffect::Bloodletting(a) => EffectTree::Bloodletting(a),
        CardEffect::DoubleBlock => EffectTree::DoubleBlock,
        CardEffect::DoubleStrength => EffectTree::DoubleStrength,
        CardEffect::Rage(a) => EffectTree::Rage(a),
        CardEffect::Metallicize(a) => EffectTree::Metallicize(a),
        CardEffect::Combust { self_damage, enemy_damage } => EffectTree::Combust {
            self_damage,
            enemy_damage,
        },
        CardEffect::DemonForm(a) => EffectTree::DemonForm(a),
        CardEffect::Barricade => EffectTree::Barricade,
        CardEffect::Juggernaut(a) => EffectTree::Juggernaut(a),
        CardEffect::DarkEmbrace { draw } => EffectTree::DarkEmbrace { draw },
        CardEffect::Evolve { draw } => EffectTree::Evolve { draw },
        CardEffect::FeelNoPain { block } => EffectTree::FeelNoPain { block },
        CardEffect::FireBreathing { damage } => EffectTree::FireBreathing { damage },
        CardEffect::Rupture { strength } => EffectTree::Rupture { strength },
        CardEffect::Corruption => EffectTree::Corruption,
        CardEffect::Brutality { self_damage, draw, interval } => EffectTree::Brutality {
            self_damage,
            draw,
            interval,
        },
        CardEffect::Exhaust => EffectTree::Exhaust,
        CardEffect::AddStatus(id) => EffectTree::AddStatus(id),
        CardEffect::Combo(effects) => EffectTree::Combo(
            Seq::new(
                effects@.len(),
                |i: int|
                    if 0 <= i < effects@.len() {
                        tree_of(effects@[i])
                    } else {
                        EffectTree::Exhaust
                    },
            ),
        ),
    }
}

/// The view of a combo holds the views of its parts, in order.
pub proof fn lemma_combo_view(effects: Vec<CardEffect>)
    ensures
        CardEffect::Combo(effects)@ is Combo,
        CardEffect::Combo(effects)@->Combo_0.len() == effects@.len(),
        forall|k: int|
            0 <= k < effects@.len() ==> (#[trigger] CardEffect::Combo(effects)@->Combo_0[k])
                == effects@[k]@,
{
}

/// Definition of a card type (shared data).
#[derive(Debug)]
pub struct CardDef {
    pub id: CardId,
    pub name: String,
    pub card_type: CardType,
    pub rarity: CardRarity,
    pub cost: Fixed,
    pub effect: CardEffect,
}

/// The mathematical form of a [`CardDef`].
pub struct CardDefView {
    pub id: CardId,
    pub name: Seq<char>,
    pub card_type: CardType,
    pub rarity: CardRarity,
    pub cost: Fixed,
    pub effect: EffectTree,
}

impl View for CardDef {
    type V = CardDefView;

    open spec fn view(&self) -> CardDefView {
        CardDefView {
            id: self.id,
            name: self.name@,
            card_type: self.card_type,
            rarity: self.rarity,
            cost: self.cost,
            effect: self.effect@,
        }
    }
}

/// The first definition in `cards` that carries `id`.
pub open spec fn lookup(cards: Seq<CardDefView>, id: CardId) -> Option<CardDefView>
    decreases cards.len(),
{
    if cards.len() == 0 {
        None
    } else if cards[0].id == id {
        Some(cards[0])
    } else {
        lookup(cards.drop_first(), id)
    }
}

/// The type of the card `id`, where `cards` defines it.
pub open spec fn type_of(cards: Seq<CardDefView>, id: CardId) -> Option<CardType> {
    match lookup(cards, id) {
        Some(def) => Some(def.card_type),
        None => None,
    }
}

/// Whether `cards` defines `id` as a status card.
pub open spec fn is_status(cards: Seq<CardDefView>, id: CardId) -> bool {
    type_of(cards, id) == Some(CardType::Status)
}

/// A definition found by [`lookup`] is one of `cards` and carries the id asked
/// for; where none is found, no definition carries it.
pub proof fn lemma_lookup(cards: Seq<CardDefView>, id: CardId)
    ensures
        match lookup(cards, id) {
            Some(def) => def.id == id && cards.contains(def),
            None => forall|i: int| 0 <= i < cards.len() ==> (#[trigger] cards[i]).id != id,
        },
    decreases cards.len(),
{
    if cards.len() > 0 {
        if cards[0].id == id {
            assert(cards.contains(cards[0]));
        } else {
            let rest = cards.drop_first();
            lemma_lookup(rest, id);
            match lookup(rest, id) {
                Some(def) => {
                    let k = choose|k: int| 0 <= k < rest.len() && rest[k] == def;
                    assert(cards[k + 1] == def);
                },
                None => {
                    assert forall|i: int| 0 <= i < cards.len() implies (#[trigger] cards[i]).id
                        != id by {
                        if i > 0 {
                            assert(rest[i - 1] == cards[i]);
                        }
                    }
                },
            }
        }
    }
}

/// The lower-case form of a text, as `str::to_lowercase` gives it.
pub uninterp spec fn lowercase_of(text: Seq<char>) -> Seq<char>;

/// The lower-case form of `text`.  Calls `str::to_lowercase`, which maps each
/// character by the Unicode rules for lower case; the contract only names
/// what it returns.
#[verifier::external_body]
fn lowercase(text: &str) -> (lowered: String)
    ensures
        lowered@ == lowercase_of(text@),
{
    text.to_lowercase()
}

/// The first definition in `cards` whose name, in lower case, is `lowered`.
pub open spec fn lookup_lowered(cards: Seq<CardDefView>, lowered: Seq<char>) -> Option<
    CardDefView,
>
    decreases cards.len(),
{
    if cards.len() == 0 {
        None
    } else if lowercase_of(cards[0].name) == lowered {
        Some(cards[0])
    } else {
        lookup_lowered(cards.drop_first(), lowered)
    }
}

/// The first definition in `cards` that is named `name`, whatever the case
/// of the letters.
pub open spec fn lookup_name(cards: Seq<CardDefView>, name: Seq<char>) -> Option<CardDefView> {
    lookup_lowered(cards, lowercase_of(name))
}

/// The definitions in `cards` that are of `card_type`, in order.
pub open spec fn of_type(cards: Seq<CardDefView>, card_type: CardType) -> Seq<CardDefView>
    decreases cards.len(),
{
    if cards.len() == 0 {
        Seq::empty()
    } else if cards.last().card_type == card_type {
        of_type(cards.drop_last(), card_type).push(cards.last())
    } else {
        of_type(cards.drop_last(), card_type)
    }
}

/// The definition at `i` is the one found for its id where no definition
/// before it carries that id.
pub proof fn lemma_lookup_at(cards: Seq<CardDefView>, id: CardId, i: int)
    requires
        0 <= i < cards.len(),
        cards[i].id == id,
        forall|j: int| 0 <= j < i ==> (#[trigger] cards[j]).id != id,
    ensures
        lookup(cards, id) == Some(cards[i]),
    decreases i,
{
    if i > 0 {
        let rest = cards.drop_first();
        assert(cards[0].id != id);
        assert(rest[i - 1] == cards[i]);
        assert forall|j: int| 0 <= j < i - 1 implies (#[trigger] rest[j]).id != id by {
            assert(rest[j] == cards[j + 1]);
        }
        lemma_lookup_at(rest, id, i - 1);
    }
}

/// Registry of all card definitions.  Read-only once the match runs; both
/// peers must hold the same definitions.
#[derive(Debug)]
pub struct CardRegistry {
    pub cards: Vec<CardDef>,
}

impl View for CardRegistry {
    type V = Seq<CardDefView>;

    open spec fn view(&self) -> Seq<CardDefView> {
        self.cards@.map_values(|def: CardDef| def@)
    }
}

impl Default for CardRegistry {
    fn default() -> (r: Self)
        ensures
            r@ == Seq::<CardDefView>::empty(),
    {
        let r = CardRegistry { cards: Vec::new() };
        assert(r@ =~= Seq::<CardDefView>::empty());
        r
    }
}

impl CardRegistry {
    /// Add a definition behind those already held.
    pub fn register(&mut self, card: CardDef)
        ensures
            final(self)@ == old(self)@.push(card@),
    {
        self.cards.push(card);
        assert(self@ =~= old(self)@.push(card@));
    }

    /// The first definition registered under `id`.
    pub fn get(&self, id: CardId) -> (r: Option<&CardDef>)
        ensures
            match r {
                Some(def) => lookup(self@, id) == Some(def@),
                None => lookup(self@, id).is_none(),
            },
    {
        let mut i: usize = 0;
        assert(self@.skip(0) =~= self@);
        while i < self.cards.len()
            invariant
                i <= self.cards.len(),
                lookup(self@, id) == lookup(self@.skip(i as int), id),
            decreases self.cards.len() - i,
        {
            let ghost rest = self@.skip(i as int);
            assert(rest[0] == self.cards[i as int]@);
            assert(rest.drop_first() =~= self@.skip(i + 1));
            if self.cards[i].id.0 == id.0 {
                return Some(&self.cards[i]);
            }
            i = i + 1;
        }
        None
    }

    /// Get a card by name (case-insensitive): the first definition registered
    /// under that name.
    pub fn get_by_name(&self, name: &str) -> (r: Option<&CardDef>)
        ensures
            match r {
                Some(def) => lookup_name(self@, name@) == Some(def@),
                None => lookup_name(self@, name@).is_none(),
            },
    {
        let lowered = lowercase(name);
        self.get_by_lowered(&lowered)
    }

    /// The first definition whose name, in lower case, is `lowered`.
    pub fn get_by_lowered(&self, lowered: &String) -> (r: Option<&CardDef>)
        ensures
            match r {
                Some(def) => lookup_lowered(self@, lowered@) == Some(def@),
                None => lookup_lowered(self@, lowered@).is_none(),
            },
    {
        let mut i: usize = 0;
        assert(self@.skip(0) =~= self@);
        while i < self.cards.len()
            invariant
                i <= self.cards.len(),
                lookup_lowered(self@, lowered@) == lookup_lowered(self@.skip(i as int), lowered@),
            decreases self.cards.len() - i,
        {
            let ghost rest = self@.skip(i as int);
            assert(rest[0] == self.cards[i as int]@);
            assert(rest.drop_first() =~= self@.skip(i + 1));
            let candidate = lowercase(self.cards[i].name.as_str());
            if candidate == *lowered {
                return Some(&self.cards[i]);
            }
            i = i + 1;
        }
        None
    }

    /// Get a CardId by name (case-insensitive), for building decks with
    /// readable names.  The name must be that of a registered card.
    pub fn id(&self, name: &str) -> (id: CardId)
        requires
            lookup_name(self@, name@).is_some(),
        ensures
            id == lookup_name(self@, name@).unwrap().id,
    {
        match self.get_by_name(name) {
            Some(def) => def.id,
            None => CardId(0),
        }
    }

    /// Get a CardId by name (case-insensitive); `None` where no card is
    /// registered under the name.
    pub fn try_id(&self, name: &str) -> (id: Option<CardId>)
        ensures
            id == match lookup_name(self@, name@) {
                Some(def) => Some(def.id),
                None => None,
            },
    {
        if self.get_by_name(name).is_some() {
            Some(self.id(name))
        } else {
            None
        }
    }

    /// Every definition, in the order of registration.
    pub fn all(&self) -> (r: &[CardDef])
        ensures
            r@ == self.cards@,
    {
        self.cards.as_slice()
    }

    /// The definitions of one type, in the order of registration.
    pub fn get_by_type(&self, card_type: CardType) -> (r: Vec<&CardDef>)
        ensures
            r@.map_values(|def: &CardDef| def@) == of_type(self@, card_type),
    {
        let mut found: Vec<&CardDef> = Vec::new();
        let mut i: usize = 0;
        assert(self@.take(0) =~= Seq::<CardDefView>::empty());
        assert(found@.map_values(|def: &CardDef| def@) =~= Seq::<CardDefView>::empty());
        while i < self.cards.len()
            invariant
                i <= self.cards.len(),
                found@.map_values(|def: &CardDef| def@) == of_type(
                    self@.take(i as int),
                    card_type,
                ),
            decreases self.cards.len() - i,
        {
            let ghost before = found@.map_values(|def: &CardDef| def@);
            assert(self@.take(i + 1).drop_last() =~= self@.take(i as int));
            assert(self@.take(i + 1).last() == self.cards[i as int]@);
            if same_type(self.cards[i].card_type, card_type) {
                found.push(&self.cards[i]);
                assert(found@.map_values(|def: &CardDef| def@) =~= before.push(
                    self.cards[i as int]@,
                ));
            }
            i = i + 1;
        }
        assert(self@.take(self.cards.len() as int) =~= self@);
        found
    }
}

/// Whether two card types are the same.
pub fn same_type(one: CardType, other: CardType) -> (r: bool)
    ensures
        r == (one == other),
{
    match (one, other) {
        (CardType::Attack, CardType::Attack) => true,
        (CardType::Skill, CardType::Skill) => true,
        (CardType::Power, CardType::Power) => true,
        (CardType::Status, CardType::Status) => true,
        _ => false,
    }
}

} // verus!
