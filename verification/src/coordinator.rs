//! The coordinator: message types of the router and the verified routing
//! decisions. The async fan-in loop itself is I/O and lives outside this
//! crate.

pub mod listener;
pub mod types;
