//! Core engine of a terminal virtual-pet game.
//!
//! A pet is described by four bounded vitals (health, hunger, happiness,
//! comfort) that decay or recover over discrete time steps. User actions
//! and the per-tick update rule are pure transformations on an in-memory
//! record; a reconciliation routine replays the ticks that were missed
//! while the program was closed. All persistence, rendering and input
//! handling live outside this crate.

pub mod actions;
pub mod glyphs;
pub mod state;
pub mod vitals;
