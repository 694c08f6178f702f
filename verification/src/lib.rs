//! Core library of a compositor companion service: it parses the compositor's
//! newline-delimited event protocol into typed events, maintains a snapshot of
//! compositor state (monitors, workspaces, stacking layers), decides where an
//! overlay surface should be placed, and routes messages from several inbound
//! sources into outbound GUI messages.
//!
//! All I/O (sockets, process spawning, rendering) lives outside this crate;
//! the functions here are pure state and decision logic with contracts.

pub mod config;
pub mod coordinator;
pub mod hyprland;
pub mod search;
pub mod state;
pub mod ui;
pub mod ui_gtk4;
pub mod text;
