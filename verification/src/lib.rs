//! A verified two-player turn-based battle engine.
//!
//! The library is the pure core of a message-driven combat program: a session
//! record (`Battle`) that walks a registration -> moves -> waiting -> game-over
//! lifecycle, a combat resolution engine with fixed equipment tables, and the
//! derivation of power, energy and turn order from raw random bytes.
//!
//! Everything the engine needs from the outside world — the address that owns
//! an entity, the entity's equipped attributes, random byte sequences, and the
//! delivery of replies and delayed messages — is handed in and out as plain
//! values, so every decision the engine makes is verified. The host loop that
//! performs the messaging lives outside the library.

pub mod battle;
pub mod engine;
pub mod laws;
pub mod random;
pub mod types;
