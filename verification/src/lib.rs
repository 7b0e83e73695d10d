//! A two-player chess engine: board and pieces, pseudo-legal move generation,
//! turn order, check detection, and a registry of running games.
mod clock;
pub mod error;
pub mod game;
pub mod game_manager;
pub mod ids;
pub mod moves;
pub mod position_set;
mod text;
