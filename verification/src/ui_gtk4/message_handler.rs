//! The UI-mode state machine: how each GUI message moves the model state.
//! The caller redraws the widgets from the state afterwards.

use vstd::prelude::*;
use crate::coordinator::types::GuiMessage;
use crate::hyprland::structs::LayerLevel;
use crate::ui_gtk4::types::{KeyboardMode, ShunpoState, UIMode};

verus! {

/// Applies one GUI message to the model state.
///
/// Display data replaces the stored data and touches no mode. `Wake` forces
/// the launcher face at the overlay rank with the keyboard held
/// exclusively; `Sleep` the clock face at the overlay rank, keyboard
/// released; `DeepSleep` the clock face at the bottom rank, keyboard
/// released. `ToggleUiMode` flips launcher and clock only while the window
/// sits at the overlay rank, and does nothing below it. A placement change
/// to the overlay rank keeps the current face; one to any other rank forces
/// the clock face at that rank with the keyboard released.
pub fn handle_ui_message(msg: GuiMessage, state: &mut ShunpoState)
    ensures
        match msg {
            GuiMessage::DisplayResults(d) => {
                &&& final(state).results_data == d.results
                &&& final(state).workspaces_data == old(state).workspaces_data
                &&& final(state).ui_mode == old(state).ui_mode
                &&& final(state).layer == old(state).layer
                &&& final(state).keyboard_mode == old(state).keyboard_mode
            },
            GuiMessage::UpdateWorkspace(list) => {
                &&& final(state).workspaces_data == list
                &&& final(state).results_data == old(state).results_data
                &&& final(state).ui_mode == old(state).ui_mode
                &&& final(state).layer == old(state).layer
                &&& final(state).keyboard_mode == old(state).keyboard_mode
            },
            _ => mode_transition(*old(state), msg, *final(state)),
        },
{
    match msg {
        GuiMessage::DisplayResults(d) => {
            state.results_data = d.results;
        },
        GuiMessage::UpdateWorkspace(list) => {
            state.workspaces_data = list;
        },
        other => {
            ui_mode_from_gui_message(other, state);
        },
    }
}

/// How a mode message moves (face, rank, keyboard); the displayed data
/// never changes.
pub open spec fn mode_transition(pre: ShunpoState, msg: GuiMessage, post: ShunpoState) -> bool {
    &&& post.workspaces_data == pre.workspaces_data
    &&& post.results_data == pre.results_data
    &&& match msg {
        GuiMessage::Wake => post.ui_mode == UIMode::Launcher && post.layer == LayerLevel::Overlay
            && post.keyboard_mode == KeyboardMode::Exclusive,
        GuiMessage::Sleep => post.ui_mode == UIMode::Clock && post.layer == LayerLevel::Overlay
            && post.keyboard_mode == KeyboardMode::Off,
        GuiMessage::DeepSleep => post.ui_mode == UIMode::Clock && post.layer == LayerLevel::Bottom
            && post.keyboard_mode == KeyboardMode::Off,
        GuiMessage::ToggleUiMode => if pre.layer == LayerLevel::Overlay {
            if pre.ui_mode == UIMode::Launcher {
                post.ui_mode == UIMode::Clock && post.layer == LayerLevel::Overlay
                    && post.keyboard_mode == KeyboardMode::Off
            } else {
                post.ui_mode == UIMode::Launcher && post.layer == LayerLevel::Overlay
                    && post.keyboard_mode == KeyboardMode::Exclusive
            }
        } else {
            post == pre
        },
        GuiMessage::WaylandMonitorLayer { target_monitor, target_layer } => if target_layer
            == LayerLevel::Overlay {
            post.ui_mode == pre.ui_mode && post.layer == LayerLevel::Overlay
                && post.keyboard_mode == pre.keyboard_mode
        } else {
            post.ui_mode == UIMode::Clock && post.layer == target_layer && post.keyboard_mode
                == KeyboardMode::Off
        },
        _ => true,
    }
}

/// Applies one mode message; see `mode_transition`.
fn ui_mode_from_gui_message(msg: GuiMessage, state: &mut ShunpoState)
    requires
        !(msg is DisplayResults),
        !(msg is UpdateWorkspace),
    ensures
        mode_transition(*old(state), msg, *final(state)),
{
    match msg {
        GuiMessage::Wake => {
            state.ui_mode = UIMode::Launcher;
            state.layer = LayerLevel::Overlay;
            state.keyboard_mode = KeyboardMode::Exclusive;
        },
        GuiMessage::Sleep => {
            state.ui_mode = UIMode::Clock;
            state.layer = LayerLevel::Overlay;
            state.keyboard_mode = KeyboardMode::Off;
        },
        GuiMessage::DeepSleep => {
            state.ui_mode = UIMode::Clock;
            state.layer = LayerLevel::Bottom;
            state.keyboard_mode = KeyboardMode::Off;
        },
        GuiMessage::ToggleUiMode => {
            if state.layer == LayerLevel::Overlay {
                if state.ui_mode == UIMode::Launcher {
                    state.ui_mode = UIMode::Clock;
                    state.keyboard_mode = KeyboardMode::Off;
                } else {
                    state.ui_mode = UIMode::Launcher;
                    state.keyboard_mode = KeyboardMode::Exclusive;
                }
            }
        },
        GuiMessage::WaylandMonitorLayer { target_monitor: _, target_layer } => {
            if target_layer == LayerLevel::Overlay {
                state.layer = LayerLevel::Overlay;
            } else {
                state.ui_mode = UIMode::Clock;
                state.layer = target_layer;
                state.keyboard_mode = KeyboardMode::Off;
            }
        },
        _ => {},
    }
}

} // verus!
