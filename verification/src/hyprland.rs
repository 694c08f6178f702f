//! Compositor integration: the wire-protocol event parser, the in-memory
//! state snapshot, and the placement engine for the overlay surface.

pub mod error;
pub mod event_parser;
pub mod events;
pub mod hyprctl;
pub mod state;
pub mod structs;
