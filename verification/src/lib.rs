//! Unit-safe angular quantities with verified arithmetic.
//!
//! Five wrapper types represent an angle measured in a particular unit:
//! [`Deg`], [`Rad`], [`Turns`], [`ArcMinutes`] and [`ArcSeconds`]. Each wraps
//! a single exact [`Scalar`] value and implements the [`Angle`] capability:
//! period, normalization, arc constants, inversion and arithmetic. The
//! [`FromAngle`] / [`IntoAngle`] pair converts between any two unit types by
//! a pure linear rescale, and [`Interpolate`] blends two angles along either
//! the shortest path around the circle or the forced-forward direction.
//!
//! Scalars are exact rationals, so every conversion, normalization and
//! interpolation result is pinned down precisely by its contract; the laws
//! in [`laws`] prove the round-trip, idempotence, range and recomposition
//! properties once and for all values.

pub mod angle;
pub mod arc_minutes;
pub mod arc_seconds;
pub mod deg;
pub mod laws;
pub mod rad;
pub mod rational;
pub mod turns;

pub use angle::Angle;
pub use arc_minutes::ArcMinutes;
pub use arc_seconds::ArcSeconds;
pub use deg::Deg;
pub use rad::Rad;
pub use turns::Turns;
pub use angle::FromAngle;
pub use angle::Interpolate;
pub use angle::IntoAngle;
pub use rational::Rat;
pub use rational::Scalar;
