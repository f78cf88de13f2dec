//! Movement-and-collision core of a top-down 2D entity simulation.
//!
//! Positions are carried in fixed-point world coordinates: one world unit is
//! `SUBUNITS_PER_UNIT` subunits, so every quantity the algorithms touch is a
//! plain integer. The per-tick algorithm maps pressed keys to a direction,
//! scales the frame step (with diagonal normalization), checks the candidate
//! position against the play-field bounds and the static colliders, and
//! either commits the move or leaves the entity untouched.

pub mod direction;
pub mod geometry;
pub mod motion;
