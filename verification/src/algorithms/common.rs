//! What the two optimizers share.

pub mod arithmetic;
pub mod rng;
pub mod sorting;
pub mod structs;
