//! Simulation core of a small top-down room scene: a player character walks
//! and runs around a tile floor among mirrors.
//!
//! The crate verifies the per-frame entity update pipeline:
//!
//! * [`input`] turns a per-frame keyboard edge snapshot into facing and
//!   locomotion intent,
//! * [`animation`] drives the sprite frame from a looping clock and a
//!   facing/mode lookup table,
//! * [`motion`] translates locomotion intent into an impulse on a physics
//!   body, or displaces a position directly,
//! * [`depth`] derives a stable draw order from vertical world position,
//! * [`mirror`] accumulates proximity "reflection charge" levels from
//!   collision events and selects a display frame from them,
//! * [`character`] composes the facets of the player entity and runs its
//!   frame step in the documented order.
//!
//! Rendering, physics integration, input device polling and scene plumbing
//! are external collaborators: the library exchanges plain values with them
//! (frame indices, impulse vectors, collision events) and verifies every
//! decision taken between those edges. Time is carried in integer
//! milliseconds and world coordinates in integer units, so that all
//! arithmetic is exact.

pub mod animation;
pub mod character;
pub mod depth;
pub mod facing;
pub mod input;
pub mod mirror;
pub mod motion;
