//! A deterministic two-player card-battle simulation core.
//!
//! Two players fight in real time: energy builds up with the clock and is
//! spent to draw and to play cards, and cards deal damage, give block, change
//! attack and defence for a while, or attach powers that last for the match.
//! The core is made for rollback networking, where both peers run the same
//! simulation on the same inputs and may run a stretch of it again.  So a
//! match is plain data that can be copied and put back, a tick takes nothing
//! but the state, the time that has passed and the two input words, and every
//! quantity is a whole number of thousandths, so that the arithmetic comes out
//! the same on every machine.
//!
//! What each function does is stated over mathematical models of the data:
//! `@` takes a value to its model, and the functions on the models say, step by
//! step, what a tick is.
//!
//! - [`fixed`]: the fixed-point arithmetic
//! - [`rules`]: the numbers of the game
//! - [`input`], [`keys`], [`input_buffer`]: input words, the keys that make
//!   them, and the requests that they become
//! - [`card`], [`cards`], [`kind`]: card definitions, the registry, and the kinds
//!   of effects
//! - [`cost`]: the energy clock
//! - [`deck`]: deck, hand and discard pile, drawing and playing
//! - [`health`]: health, block and thorns, and what a hit does
//! - [`status`]: status effects and powers, and what time does to them
//! - [`effect`]: what playing a card does
//! - [`player`], [`game`]: the players, the match and the tick
//! - [`event`]: the log
//! - [`invariants`]: what every step keeps
//! - [`additions`]: where status cards come from
//! - [`ownership`]: which cards a player owns, card by card

pub mod additions;
pub mod card;
pub mod cards;
pub mod cost;
pub mod deck;
pub mod effect;
pub mod event;
pub mod fixed;
pub mod game;
pub mod health;
pub mod input;
pub mod input_buffer;
pub mod invariants;
pub mod keys;
pub mod kind;
pub mod ownership;
pub mod player;
pub mod rules;
pub mod status;
