//! Planning, convergence control and formatting for computing τ = 2π to a
//! requested number of decimal digits with the Gauss–Legendre iteration.
//!
//! The arbitrary-precision arithmetic itself is done by the caller's big-float
//! engine. This crate decides everything around it: how many bits the engine
//! must work with, which exponent the stopping threshold has, when the
//! iteration stops, and how the rendered value is cut to the requested length.

pub mod converger;
pub mod error;
pub mod format;
pub mod log_bounds;
pub mod precision;
