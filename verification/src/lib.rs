//! Building blocks for host-driven input scripts: an orientation accumulator
//! that turns a stream of 2D pointer-motion deltas into a yaw/pitch rotation,
//! and a click counter that tallies signed presses of two buttons.
//!
//! Angles are carried as fixed-point signed counts of microradians, so the
//! clamp arithmetic on pitch is exact. A hosting engine translates its own
//! event representation into [`event::InputEvent`] at the boundary and reads
//! the symbolic [`rotation::Rotation`] back each frame.

pub mod angle;
pub mod clicker;
pub mod event;
pub mod player;
pub mod rotation;
