//! A 2D grid ray-casting library.
//!
//! A fan of rays is cast from a moving observer across a rectangular tile
//! grid; for each ray the engine finds the nearest wall intersection by
//! walking successive row-line and column-line crossings, caps the hit
//! distance at a sentinel, and projects it to a pseudo-3D wall-strip
//! height.
//!
//! All geometry is carried in plain fixed-point integers: angles in units
//! of `angle::FULL_TURN` per turn, world positions in sub-units, and
//! direction components scaled by `direction::DIR_ONE`.  A front end
//! converts its own floating-point trigonometry into these values once
//! per ray and hands the results to the verified engine.

pub mod angle;
pub mod caster;
pub mod direction;
pub mod fan;
pub mod frame;
pub mod grid;
pub mod math;
pub mod player;
pub mod project;
pub mod ray;
