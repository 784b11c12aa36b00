//! Synchronization core for a two-seat turn-based board-game service.
//!
//! Many independent game sessions run concurrently, each addressable by a
//! short human-typeable code. A session pairs two seated participants,
//! drives a strictly sequential turn protocol between them, and fans every
//! confirmed move out to any number of spectators over a broadcast channel.
//! The rules engine that judges moves is an external collaborator: its
//! verdicts enter this crate as plain values, and the crate's contracts pin
//! down everything that happens around them.

pub mod chan;
pub mod code_gen;
pub mod frame;
pub mod game;
pub mod laws;
pub mod registry;
