//! The fixed numbers of the game.

use vstd::prelude::*;
use crate::fixed::Fixed;

verus! {

/// Initial HP for all players.
pub const INITIAL_HP: Fixed = 1_000_000;

/// Cost to draw cards.
pub const DRAW_COST: Fixed = 2_000;

/// Number of cards to draw.
pub const DRAW_COUNT: usize = 3;

/// Number of cards that each player draws when a match begins.
pub const OPENING_HAND: usize = 5;

/// Maximum number of cards supported by input flags.
pub const MAX_HAND_SIZE: usize = 10;

/// Block decay rate per second.
pub const BLOCK_DECAY_RATE: Fixed = 20_000;

/// Damage added to an attack by one point of strength.
pub const STRENGTH_DAMAGE: Fixed = 10;

/// How long Rage lasts once gained.
pub const RAGE_DURATION: Fixed = 10_000;

/// The period of Combust.
pub const COMBUST_PERIOD: Fixed = 1_000;

} // verus!
