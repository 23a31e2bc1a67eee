//! A two-party pebbles game (Nim with an upper bound on each removal): a pile
//! starts with `pebbles_count` pebbles, each turn removes between 1 and
//! `max_pebbles_per_turn` of them, and whoever removes the last pebble wins.
//! One party is an automated opponent with an easy (random) and a hard
//! (game-theoretically optimal) mode.
//!
//! The library is the verified core: the game state machine and the opponent's
//! move selection. It is deterministic; every random draw is handed in by the
//! caller as a plain 32-bit value, so the host around the library owns the
//! entropy source and the transport.

pub mod engine;
pub mod game;
pub mod laws;
pub mod session;
