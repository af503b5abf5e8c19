//! Two-piece chess endgame puzzles: capture geometry for each piece kind and
//! the classification of a position by who can capture whom.

pub mod board;
pub mod parser;
pub mod piece;
