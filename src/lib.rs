//! A prize pool: an administrator records the winners of a game and their
//! awards once, and each winner claims their award once, paid out of an
//! escrow that only the program's derived authority can move.
pub mod authority;
pub mod game;
pub mod keys;
pub mod laws;
