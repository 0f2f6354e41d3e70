//! The demonstrations that come with the engine.

use vstd::prelude::*;

verus! {

/// The name of the engine.
pub const ENGINE_NAME: &'static str = "RRTE Engine";

/// Which feature a focused demonstration shows.
#[derive(Clone, Copy, Debug, PartialEq, Eq, Structural)]
pub enum DemoType {
    CSGOperations,
    Deformations,
    NoiseAndWaves,
}

} // verus!
