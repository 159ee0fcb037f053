//! Discrete core of a hex-grid curling simulation: tile kinds and the effect
//! each applies, a tile's sweep-budget blend state, the plan of effects a
//! stone receives in a tick, level layouts, grid indexing, and the stepping
//! decisions shared by the live simulation and the trajectory preview.
//!
//! Positions, velocities and overlap areas are floating point and stay with
//! the caller, which folds the effects planned here into a velocity.

pub mod facing;
pub mod tile;
pub mod drag;
pub mod level;
pub mod grid;
pub mod stepping;
pub mod effects;
