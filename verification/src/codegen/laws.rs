//! What holds of the generator for every input: laws, each proved from the
//! definitions that the contracts use.
pub mod classes;
pub mod emission;
pub mod grouping;
pub mod texts;
