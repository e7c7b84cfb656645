// Procedural planet shaders in fixed point: noise-driven colour synthesis, lighting,
// ring opacity and vertex transforms, with every value a real number scaled by
// `fixed::ONE`. Transcendental inputs (sines, cosines, noise samples, fractional
// powers) are taken as arguments.
use vstd::prelude::*;

pub mod fixed;
pub mod shading;
pub mod transform;
pub mod rings;
pub mod gas;
pub mod moon;
pub mod red;
pub mod ice;
pub mod registry;

verus! {

} // verus!
