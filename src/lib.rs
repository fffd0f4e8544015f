//! Rules of a turn-based battle royale on a 10×10 board: one player, nine
//! scripted opponents, a shrinking safe zone, power-ups, combo scoring and a
//! prize claim. Every operation is a state transition on one `Game` record;
//! money, storage and the clock belong to the host, which hands the library
//! plain values.
use vstd::prelude::*;

pub mod game;
pub mod geometry;
pub mod laws;
pub mod opponents;
pub mod player;
pub mod round;
pub mod turn;

pub use game::{check_record, initialize_game, reset_game, Game, GameError, Personality};
pub use player::move_player;
pub use round::{advance_round, claim_prize};
pub use turn::process_ai_turn;

verus! {

} // verus!
