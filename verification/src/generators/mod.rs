//! The generators of the five record collections and what they share.

pub mod data_generators;
pub mod helpers;
pub mod laws;
