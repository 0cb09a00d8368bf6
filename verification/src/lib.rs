//! Core of a 2D side-scrolling platformer simulation.
//!
//! A single controllable entity moves under gravity, responds to directional
//! input, and resolves collisions against static obstacles tagged with
//! directional collision semantics (ground, wall, ceiling, or fully solid).
//! The simulation works on fixed-point world coordinates: positions, extents
//! and velocities are integers counting thousandths of a world unit, and time
//! is supplied in milliseconds. Rendering, asset loading and input plumbing
//! are outside collaborators: the core consumes abstract input state and
//! per-entity geometry, and emits entity poses.

pub mod animation;
pub mod components;
pub mod constants;
pub mod math;
pub mod physics;
pub mod player;
pub mod world;
