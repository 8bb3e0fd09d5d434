//! A structure-of-arrays "multi vector": a fixed number of independently
//! typed columns that share one logical length, so that every row
//! insertion or removal affects all columns in lockstep.

pub mod containers;
pub mod meta;
