//! The GUI consumer's model state: which face the window shows (launcher or
//! clock), on which stacking rank it sits, how it holds the keyboard, and
//! the data its widgets display. The widgets themselves live outside this
//! crate and are redrawn from this state.

use vstd::prelude::*;
use crate::coordinator::types::WorkspaceMessage;
use crate::hyprland::structs::LayerLevel;
use crate::search::entity_model::LauncherEntity;

verus! {

/// Which face the window shows.
#[derive(Clone, Copy, Debug, PartialEq, Eq, Structural)]
pub enum UIMode {
    Launcher,
    Clock,
}

/// How the window holds the keyboard.
#[derive(Clone, Copy, Debug, PartialEq, Eq, Structural)]
pub enum KeyboardMode {
    Off,
    OnDemand,
    Exclusive,
}

/// The GUI's model state.
pub struct ShunpoState {
    pub ui_mode: UIMode,
    pub layer: LayerLevel,
    pub keyboard_mode: KeyboardMode,
    pub workspaces_data: Vec<WorkspaceMessage>,
    pub results_data: Vec<LauncherEntity>,
}

impl ShunpoState {
    /// The state at startup: the clock face, on the overlay rank, keyboard
    /// on demand, nothing to display yet.
    pub fn new() -> (s: Self)
        ensures
            s.ui_mode == UIMode::Clock,
            s.layer == LayerLevel::Overlay,
            s.keyboard_mode == KeyboardMode::OnDemand,
            s.workspaces_data@.len() == 0,
            s.results_data@.len() == 0,
    {
        ShunpoState {
            ui_mode: UIMode::Clock,
            layer: LayerLevel::Overlay,
            keyboard_mode: KeyboardMode::OnDemand,
            workspaces_data: Vec::new(),
            results_data: Vec::new(),
        }
    }
}

} // verus!
