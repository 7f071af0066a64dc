//! The verified core of a small kinematics display: a ball that runs along
//! the floor until friction has stopped it, and that drops and bounces until
//! it lies still.
//!
//! The library holds what can be decided without computing with fractions:
//!
//! * [`horizontal_state`] and [`vertical_state`] keep the phase of each of
//!   the two motions and decide, tick by tick, which way the ball goes and
//!   whether it still moves;
//! * [`now`] is the stopwatch that times the ticks;
//! * [`direction`] names the axis and sense of a commanded motion;
//! * [`formula`] traces the outline of a circle on an integer grid.
//!
//! Speeds, positions and displacements are the caller's: it integrates the
//! motion and reports to the phase what happened on the way.

pub mod direction;
pub mod formula;
pub mod horizontal_state;
pub mod now;
pub mod vertical_state;

pub use direction::GLBBDirection;
pub use formula::mid_point;
pub use horizontal_state::HorizontalState;
pub use now::Now;
pub use vertical_state::VerticalState;
