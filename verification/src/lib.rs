//! A particle simulation core.
//!
//! A declarative emitter description (spawn rate, shape, initial kinematics,
//! lifetime, velocity modifiers) is advanced forward in time once per frame.
//! Each tick the spawner decides how many particles to create, every live
//! particle is aged, recolored, moved and measured, and exhausted particles
//! are removed.
//!
//! All quantities are carried as fixed-point numbers ([`fixed::Fx`]), so every
//! step of the simulation is exact integer arithmetic with saturation instead
//! of overflow.
//!
//! - [`fixed`] and [`vecmath`] hold the scalar, vector, color and transform
//!   arithmetic.
//! - [`values`] and [`curve`] hold the value models: jitter, interpolation,
//!   curves, waves, noise and the velocity-modifier variants.
//! - [`shapes`] samples spawn placements from emitter shapes.
//! - [`components`] holds the emitter configuration and per-particle state.
//! - [`systems`] holds the per-tick passes and the tick driver.
//! - [`rng`] wraps the random source.
//! - [`laws`] proves the cross-cutting properties of the simulation.

pub mod components;
pub mod curve;
pub mod fixed;
pub mod laws;
pub mod rng;
pub mod shapes;
pub mod systems;
pub mod values;
pub mod vecmath;
