//! Core logic of a small 2D tile-based platformer: unit-safe physics
//! scalars, the character controller's per-tick state machine, and a
//! smoothed-follow camera with viewport clamping.
//!
//! All quantities are integers in milli-units (millimeters, millimeters
//! per second, milliseconds), so every step of the motion and camera math
//! is exact and verified. Rendering, input polling, asset loading and the
//! collision-world sweeps live outside the library and exchange plain
//! values with it.

pub mod camera;
pub mod di;
pub mod duck;
pub mod geometry;
pub mod physics;
pub mod tiled_map;
