//! Decision-and-geometry core for a humanoid soccer robot.
//!
//! Coordinates are held as fixed-point integers ("ticks",
//! [`math::TICKS_PER_UNIT`] ticks per world unit), so every geometric
//! predicate is decided exactly and every rounded value is pinned down by an
//! exact integer formula in its contract.

pub mod arc;
pub mod ball_state_composer;
pub mod circle;
pub mod cycle_time_warnings;
pub mod defend;
pub mod fake_data;
pub mod frames;
pub mod intercept_ball;
pub mod line;
pub mod line_segment;
pub mod lines;
pub mod math;
pub mod motion;
pub mod orientation;
pub mod parameters;
pub mod rectangle;
pub mod simulator;
pub mod transform;
pub mod world;
