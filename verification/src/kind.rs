//! What an effect mainly is: the one word that a card can be filed under.

use vstd::prelude::*;
use crate::card::{lemma_combo_view, CardEffect, EffectTree};

verus! {

/// What an effect mainly does.
#[derive(Debug, Clone, Copy, PartialEq, Eq, Hash, Structural)]
pub enum EffectKind {
    Damage,
    Heal,
    Draw,
    Block,
    Thorns,
    Accelerate,
}

/// The kind of an effect that is no combo, where it has one.
pub open spec fn single_kind(effect: EffectTree) -> Option<EffectKind> {
    match effect {
        EffectTree::Damage(_) | EffectTree::MultiHit { .. } | EffectTree::BodySlam
        | EffectTree::FireBreathing { .. } => Some(EffectKind::Damage),
        EffectTree::Heal(_) => Some(EffectKind::Heal),
        EffectTree::Draw(_) | EffectTree::DarkEmbrace { .. } | EffectTree::Evolve { .. } => Some(
            EffectKind::Draw,
        ),
        EffectTree::Block(_) | EffectTree::DoubleBlock | EffectTree::FeelNoPain { .. } => Some(
            EffectKind::Block,
        ),
        EffectTree::Thorns(_) => Some(EffectKind::Thorns),
        EffectTree::Accelerate { .. } => Some(EffectKind::Accelerate),
        _ => None,
    }
}

/// The kind that an effect has all through: its own where it is no combo,
/// and the one that every part of a combo has.  A combo without parts, or
/// with parts of different kinds or of none, has no kind.
pub open spec fn unified_kind(effect: EffectTree) -> Option<EffectKind>
    decreases effect,
{
    match effect {
        EffectTree::Combo(parts) => match shared_kind(parts, parts.len()) {
            Some(kind) => kind,
            None => None,
        },
        _ => single_kind(effect),
    }
}

/// The kind that the first `count` of `parts` share: `None` where one of them
/// has no kind or two of them differ, `Some(None)` where there are none, and
/// the kind otherwise.
pub open spec fn shared_kind(parts: Seq<EffectTree>, count: nat) -> Option<Option<EffectKind>>
    decreases parts, count,
{
    if count == 0 || count > parts.len() {
        Some(None)
    } else {
        match (shared_kind(parts, (count - 1) as nat), unified_kind(parts[count - 1])) {
            (Some(None), Some(next)) => Some(Some(next)),
            (Some(Some(kind)), Some(next)) => if kind == next {
                Some(Some(kind))
            } else {
                None
            },
            _ => None,
        }
    }
}

/// The first effect of an effect that is no combo: the effect itself, or the
/// first such effect of the first part of a combo.  A combo without parts is
/// its own.
pub open spec fn primary(effect: EffectTree) -> EffectTree
    decreases effect,
{
    match effect {
        EffectTree::Combo(parts) => if parts.len() > 0 {
            primary(parts[0])
        } else {
            effect
        },
        _ => effect,
    }
}

/// The first `count` parts share the kind `kind` exactly when there are some
/// and each of them has that kind all through.
pub proof fn lemma_shared_kind(parts: Seq<EffectTree>, count: nat, kind: EffectKind)
    requires
        count <= parts.len(),
    ensures
        shared_kind(parts, count) == Some(Some(kind)) <==> count > 0 && forall|i: int|
            0 <= i < count ==> unified_kind(#[trigger] parts[i]) == Some(kind),
        shared_kind(parts, count) == Some(None::<EffectKind>) <==> count == 0,
    decreases count,
{
    if count > 0 {
        lemma_shared_kind(parts, (count - 1) as nat, kind);
        match unified_kind(parts[count - 1]) {
            Some(next) => {
                lemma_shared_kind(parts, (count - 1) as nat, next);
            },
            None => {},
        }
        if shared_kind(parts, count) == Some(Some(kind)) {
            assert forall|i: int| 0 <= i < count implies unified_kind(#[trigger] parts[i]) == Some(
                kind,
            ) by {
                if i < count - 1 {
                    assert(shared_kind(parts, (count - 1) as nat) == Some(Some(kind)));
                }
            }
        }
    }
}

fn same_kind(one: EffectKind, other: EffectKind) -> (r: bool)
    ensures
        r == (one == other),
{
    match (one, other) {
        (EffectKind::Damage, EffectKind::Damage) => true,
        (EffectKind::Heal, EffectKind::Heal) => true,
        (EffectKind::Draw, EffectKind::Draw) => true,
        (EffectKind::Block, EffectKind::Block) => true,
        (EffectKind::Thorns, EffectKind::Thorns) => true,
        (EffectKind::Accelerate, EffectKind::Accelerate) => true,
        _ => false,
    }
}

/// The kind that `effect` has all through, if it has one.
pub fn unified_effect_kind(effect: &CardEffect) -> (kind: Option<EffectKind>)
    ensures
        kind == unified_kind(effect@),
    decreases effect,
{
    match effect {
        CardEffect::Damage(_)
        | CardEffect::MultiHit { .. }
        | CardEffect::BodySlam
        | CardEffect::FireBreathing { .. } => Some(EffectKind::Damage),
        CardEffect::Heal(_) => Some(EffectKind::Heal),
        CardEffect::Draw(_) | CardEffect::DarkEmbrace { .. } | CardEffect::Evolve { .. } => Some(
            EffectKind::Draw,
        ),
        CardEffect::Block(_) | CardEffect::DoubleBlock | CardEffect::FeelNoPain { .. } => Some(
            EffectKind::Block,
        ),
        CardEffect::Thorns(_) => Some(EffectKind::Thorns),
        CardEffect::Accelerate { .. } => Some(EffectKind::Accelerate),
        CardEffect::Combo(effects) => {
            let ghost parts = effect@->Combo_0;
            proof {
                lemma_combo_view(*effects);
            }
            let mut kind: Option<EffectKind> = None;
            let mut i: usize = 0;
            while i < effects.len()
                invariant
                    i <= effects.len(),
                    *effect == CardEffect::Combo(*effects),
                    effect@ == EffectTree::Combo(parts),
                    parts.len() == effects.len(),
                    forall|k: int| 0 <= k < parts.len() ==> parts[k] == #[trigger] effects[k]@,
                    shared_kind(parts, i as nat) == Some(kind),
                decreases effects.len() - i,
            {
                proof {
                    assert(*effects == effect->Combo_0);
                    assert(decreases_to!(*effect => effect->Combo_0));
                    assert(decreases_to!(*effects => effects[i as int]));
                }
                let ghost before = shared_kind(parts, i as nat);
                match unified_effect_kind(&effects[i]) {
                    None => {
                        proof {
                            lemma_clash_stays(parts, (i + 1) as nat, parts.len());
                        }
                        return None;
                    },
                    Some(next) => {
                        match kind {
                            Some(existing) => {
                                if !same_kind(existing, next) {
                                    proof {
                                        lemma_clash_stays(parts, (i + 1) as nat, parts.len());
                                    }
                                    return None;
                                }
                            },
                            None => {
                                kind = Some(next);
                            },
                        }
                    },
                }
                i = i + 1;
            }
            kind
        },
        _ => None,
    }
}

/// Parts that do not share a kind do not come to share one when more parts
/// follow.
pub proof fn lemma_clash_stays(parts: Seq<EffectTree>, count: nat, more: nat)
    requires
        count <= more <= parts.len(),
        shared_kind(parts, count).is_none(),
    ensures
        shared_kind(parts, more).is_none(),
    decreases more,
{
    if more > count {
        lemma_clash_stays(parts, count, (more - 1) as nat);
    }
}

/// The first effect of `effect` that is no combo.
pub fn primary_effect(effect: &CardEffect) -> (first: &CardEffect)
    ensures
        first@ == primary(effect@),
    decreases effect,
{
    match effect {
        CardEffect::Combo(effects) => {
            proof {
                lemma_combo_view(*effects);
            }
            if effects.len() > 0 {
                proof {
                    assert(*effects == effect->Combo_0);
                    assert(decreases_to!(*effect => effect->Combo_0));
                    assert(decreases_to!(*effects => effects[0]));
                }
                primary_effect(&effects[0])
            } else {
                effect
            }
        },
        _ => effect,
    }
}

} // verus!
