//! A ray-tracing engine core with machine-checked contracts.
//!
//! Real numbers are carried through the library as IEEE-754 binary32 bit
//! patterns ([`math::Scalar`]). The library never does arithmetic on them: it
//! compares them, flips their sign, stores them and lays them out in memory.
//! Everything it decides from those comparisons is stated in the contracts of
//! its functions.

pub mod api;
pub mod assets;
pub mod demo;
pub mod ecs;
pub mod math;
pub mod plugin;
pub mod renderer;
pub mod runtime;
