//! The per-tick rules of a small arcade round: a player chasing a target
//! while an adversary pursues the player.
//!
//! Every coordinate is held in half units (a stored value of 2 is one unit of
//! playfield distance), so that the adversary's half-unit steps stay exact.
pub mod geometry;
pub mod pursuit;
pub mod world;
pub mod systems;
pub mod draw;
pub mod tick;
pub mod laws;
