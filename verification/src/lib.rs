//! Flight dynamics for a small two-dimensional aircraft: control mapping,
//! force computation, forward-Euler integration, collision tests and the
//! flying/crashed life cycle.
//!
//! Every quantity is an integer count of fixed-point steps, so that each
//! tick is exactly reproducible and every rule is stated over integers.
//! The one thing a tick needs from outside is the cosine and sine of the
//! heading it steers to: [`FlightSimulator::advance`] asks a compass that
//! the caller supplies, and [`FlightSimulator::advance_toward`] takes them
//! as a [`Direction`].
//!
//! The rules of a tick are written down in [`model`], the state that obeys
//! them is [`FlightSimulator`], and [`laws`] holds what follows for every
//! tick and every run of ticks.

pub mod fixed;
pub mod geometry;
pub mod input;
pub mod config;
pub mod model;
pub mod physics;
pub mod laws;

pub use config::FlightConfig;
pub use geometry::{ArenaBounds, Rect, Vec2};
pub use input::{Control, InputSnapshot, ThrottleCommand};
pub use model::Status;
pub use physics::{Direction, FlightSimulator};
