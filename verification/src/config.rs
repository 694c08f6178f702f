//! Configuration: the data, and the verified rules for loading, falling
//! back and regenerating. The file format lives outside this crate.

pub mod config;
pub mod error;
