//! Turn legality checking and state transition for a worker-placement
//! economic board game.
//!
//! The crate models the board (fields, rivers, resource inventories), the
//! per-player state (units, buildings, progress trackers), the closed
//! vocabulary of turn descriptors, a legality checker that validates a
//! composite action against an incremental ledger, an enumerator of the
//! legal action space, and the executor that applies a validated action.

pub mod campaign;
pub mod game;
pub mod game_state;
pub mod template;
pub mod turn;
