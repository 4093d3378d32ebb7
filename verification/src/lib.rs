//! Simulation core of a small arcade shooter: the component data of an
//! entity-component world, the shared resources of one simulation, and the
//! per-frame systems and entity factories that act on them.
//!
//! Every real-valued quantity is a fixed-point integer with three decimal
//! places: one pixel is `UNIT` units, an angle is held in thousandths of a
//! radian, and a scale factor of one is `UNIT`. Time is held in nanoseconds.

pub mod actors;
pub mod chance;
pub mod components;
pub mod entities;
pub mod events;
pub mod resources;
pub mod schedule;
pub mod systems;
pub mod utils;
