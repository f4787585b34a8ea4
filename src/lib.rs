//! A chess rules engine: board state, move validation and execution, and
//! game-status tracking (checkmate, stalemate and draws).
pub mod board;
pub mod draw;
pub mod engine;
pub mod laws;
pub mod moves;
pub mod notation;
pub mod piece;
pub mod rules;
