//! Decision logic for a two-player pebble-subtraction game between a human
//! player and an automated opponent.
//!
//! The library is the verified core of the game: state initialization, turn
//! resolution, the opponent's move-selection strategy, win detection and
//! restart. Transport of messages and the host's random-number source are
//! external collaborators: every entry point takes the random draws it needs
//! as plain `u32` arguments, so the core is deterministic and fully checked.

pub mod engine;
pub mod game;
pub mod laws;
pub mod strategy;
