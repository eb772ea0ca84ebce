//! A verified implementation of the NIV ("National Impact Velocity")
//! macroeconomic stress indicator: growth-rate feature derivation over a
//! monthly series, composition of four sub-indices, a nonlinear master score
//! with a recession-probability mapping and alert tiers, trailing-window
//! smoothing, and a benchmark-validation harness.
//!
//! All real-valued quantities are represented in saturating fixed-point
//! arithmetic (millionths), so every formula has an exact, machine-checked
//! meaning.

pub mod fixed;
pub mod transcendental;
pub mod niv;
pub mod series;
pub mod text;
pub mod validation;
pub mod fred;
pub mod service;
pub mod analysis;
