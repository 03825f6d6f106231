//! Probability estimation for opening hands in a card game.
//!
//! A [`state::GameState`] holds five zones of cards. Every transition moves
//! cards between zones (or fails as infeasible), and the combo lines in
//! [`combo`] chain transitions with ordered fallbacks to decide whether an
//! objective can be reached from a starting hand. [`simulation`] deals many
//! random hands and tallies how often each objective is reached.

pub mod card;
pub mod state;
pub mod line;
pub mod combo;
pub mod simulation;
