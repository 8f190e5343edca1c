//! Search for a CREATE2 salt whose derived contract address carries a
//! chosen byte pattern at its start or at its end.

pub mod address;
pub mod error;
pub mod encoding;
pub mod pattern;
pub mod sampler;
pub mod search;
