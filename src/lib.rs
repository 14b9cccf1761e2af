use vstd::prelude::*;

pub mod bridge;
pub mod dsp;
pub mod params;
pub mod plugin;
pub mod render;
pub mod text;

verus! {

} // verus!
