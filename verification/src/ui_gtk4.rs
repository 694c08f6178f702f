//! The GUI consumer's verified side: its model state, the UI-mode state
//! machine, and small helpers. Widget construction and rendering live
//! outside this crate.

pub mod errors;
pub mod helpers;
pub mod message_handler;
pub mod types;
