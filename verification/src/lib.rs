//! Step-driven hyperparameter schedules: a one-cycle policy that ramps the
//! learning rate up and back down along cosine curves while momentum moves the
//! other way, and a plain cosine-annealing policy.
//!
//! The schedules keep the step counter and decide which ramp applies and how
//! far along it the run is, as exact integer fractions. Evaluating the cosine
//! and writing the result into an optimizer is left to the caller.

pub mod cosine;
pub mod error;
pub mod one_cycle;
pub mod ramp;

pub use cosine::CosineAnnealing;
pub use error::ConfigError;
pub use one_cycle::{build_phases, OneCycle, Phase};
pub use ramp::{Angle, Bound, Ramp};
