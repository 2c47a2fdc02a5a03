//! A small two-player board game engine on the 8×8 chess grid.
//!
//! The engine keeps the placement of the pieces, decides whether a requested
//! move obeys the movement rule of its piece, carries out the moves that do,
//! and tells what each move achieved. A game is won by capturing the
//! opposing king; check, castling, en passant and promotion are not modelled.
pub mod board;
pub mod err;
pub mod game;
pub mod mv;
pub mod text;
