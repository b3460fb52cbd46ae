//! A single-player number-guessing game: the rules, the per-game state, the
//! store that holds the games, and the two request handlers built on them.

pub mod game;
pub mod handlers;
pub mod laws;
mod random;
pub mod response;
pub mod rules;
pub mod store;
pub mod text;
