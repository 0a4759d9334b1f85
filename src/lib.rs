//! A five-in-a-row board game engine: board, cursor, turns and win detection.
pub mod model;
pub mod game;
pub mod laws;
