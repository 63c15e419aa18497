//! Discrete-time model of a hydraulically driven nose-wheel steering
//! assembly.
//!
//! All physical quantities are carried as scaled integers so that every
//! state transition is exact and provable:
//!
//! - angles in milli-degrees (`1000` = one degree),
//! - angular speeds in milli-degrees per second,
//! - ground speeds in milli-knots,
//! - hydraulic pressure in psi,
//! - elapsed time in milliseconds,
//! - piston area in square millimetres,
//! - fluid volume in nanolitres.
//!
//! The crate has two components: [`limiter::SteeringAngleLimiter`], a pure
//! speed-dependent bound on commanded angles, and
//! [`actuator::SteeringActuator`], the stateful per-tick position, speed and
//! fluid-flow update.

pub mod actuator;
pub mod laws;
pub mod limiter;
pub mod num;
