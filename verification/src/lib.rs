//! A verified core for a side-scrolling platformer: a player character runs,
//! jumps, and slides across a procedurally extended obstacle course, dying on
//! collision with a barrier or a mis-timed platform landing, with a restart
//! flow.
//!
//! The crate covers the geometry primitives, the character state machine and
//! its per-tick physics, the obstacle model with collision response, the
//! scrolling world with its segment generator, the game session state machine,
//! and the fixed-timestep accumulator that decouples logical updates from the
//! host's frame delivery. Rendering, asset loading, and raw input capture are
//! the host's business: callers hand the library plain values (timestamps,
//! key flags, sprite-sheet data) and read plain values back.

pub mod boy;
pub mod character;
pub mod game;
pub mod geometry;
pub mod obstacle;
pub mod segments;
pub mod sheet;
pub mod timer;
pub mod world;
