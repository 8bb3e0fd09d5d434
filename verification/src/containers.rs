//! Multi-column containers: structure-of-arrays vectors whose columns grow
//! and shrink in lockstep.

pub mod multi_vec;
pub mod multi_vec2;
pub mod multi_vec6;
