//! Data model of a bytecode container: type descriptors, encoded values,
//! annotations, access flags and class records.

pub mod error;
pub mod types;
