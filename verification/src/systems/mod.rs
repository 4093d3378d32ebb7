//! The per-frame systems.

pub mod bounds;
pub mod controllable;
pub mod follow;
pub mod garbage;
pub mod lifetime;
pub mod physics;
pub mod position;
pub mod shooting;
pub mod spawn;
pub mod tween;
pub mod collision;
