//! Code generation from Ion Schema type definitions.
pub mod isl;
pub mod model;
pub mod result;
pub mod utils;
pub mod spec;
pub mod generator;
pub mod builders;
pub mod laws;
pub mod filters;
pub mod adt;
