use shunpo::coordinator::types::{GuiMessage, SearchMessageData, WorkspaceMessage};
use shunpo::hyprland::structs::LayerLevel;
use shunpo::search::entity_model::{Dispatcher, LauncherEntity};
use shunpo::ui_gtk4::helpers::result_data_from_idx;
use shunpo::ui_gtk4::message_handler::handle_ui_message;
use shunpo::ui_gtk4::types::{KeyboardMode, ShunpoState, UIMode};

fn entity(alias: &str) -> LauncherEntity {
    LauncherEntity {
        alias: alias.to_string(),
        command: alias.to_string(),
        dispatcher: Dispatcher::Hyprctl,
    }
}

#[test]
fn fresh_state_shows_the_clock_on_overlay() {
    let s = ShunpoState::new();
    assert_eq!(s.ui_mode, UIMode::Clock);
    assert_eq!(s.layer, LayerLevel::Overlay);
    assert_eq!(s.keyboard_mode, KeyboardMode::OnDemand);
    assert!(s.results_data.is_empty());
    assert!(s.workspaces_data.is_empty());
}

#[test]
fn wake_forces_launcher_overlay_exclusive() {
    let mut s = ShunpoState::new();
    handle_ui_message(GuiMessage::Wake, &mut s);
    assert_eq!(s.ui_mode, UIMode::Launcher);
    assert_eq!(s.layer, LayerLevel::Overlay);
    assert_eq!(s.keyboard_mode, KeyboardMode::Exclusive);
}

#[test]
fn sleep_forces_clock_overlay_no_keyboard() {
    let mut s = ShunpoState::new();
    handle_ui_message(GuiMessage::Wake, &mut s);
    handle_ui_message(GuiMessage::Sleep, &mut s);
    assert_eq!(s.ui_mode, UIMode::Clock);
    assert_eq!(s.layer, LayerLevel::Overlay);
    assert_eq!(s.keyboard_mode, KeyboardMode::Off);
}

#[test]
fn deep_sleep_forces_clock_bottom_no_keyboard() {
    let mut s = ShunpoState::new();
    handle_ui_message(GuiMessage::DeepSleep, &mut s);
    assert_eq!(s.ui_mode, UIMode::Clock);
    assert_eq!(s.layer, LayerLevel::Bottom);
    assert_eq!(s.keyboard_mode, KeyboardMode::Off);
}

#[test]
fn toggle_flips_modes_only_at_overlay() {
    let mut s = ShunpoState::new();
    handle_ui_message(GuiMessage::ToggleUiMode, &mut s);
    assert_eq!(s.ui_mode, UIMode::Launcher);
    assert_eq!(s.keyboard_mode, KeyboardMode::Exclusive);
    handle_ui_message(GuiMessage::ToggleUiMode, &mut s);
    assert_eq!(s.ui_mode, UIMode::Clock);
    assert_eq!(s.keyboard_mode, KeyboardMode::Off);

    handle_ui_message(GuiMessage::DeepSleep, &mut s);
    handle_ui_message(GuiMessage::ToggleUiMode, &mut s);
    assert_eq!(s.ui_mode, UIMode::Clock);
    assert_eq!(s.layer, LayerLevel::Bottom);
    assert_eq!(s.keyboard_mode, KeyboardMode::Off);
}

#[test]
fn placement_to_bottom_forces_clock_whatever_the_mode_was() {
    let mut s = ShunpoState::new();
    handle_ui_message(GuiMessage::Wake, &mut s);
    handle_ui_message(
        GuiMessage::WaylandMonitorLayer {
            target_monitor: "DP-3".to_string(),
            target_layer: LayerLevel::Bottom,
        },
        &mut s,
    );
    assert_eq!(s.ui_mode, UIMode::Clock);
    assert_eq!(s.layer, LayerLevel::Bottom);
    assert_eq!(s.keyboard_mode, KeyboardMode::Off);
}

#[test]
fn placement_to_overlay_restores_overlay_and_keeps_the_mode() {
    let mut s = ShunpoState::new();
    handle_ui_message(GuiMessage::DeepSleep, &mut s);
    handle_ui_message(
        GuiMessage::WaylandMonitorLayer {
            target_monitor: "DP-3".to_string(),
            target_layer: LayerLevel::Overlay,
        },
        &mut s,
    );
    assert_eq!(s.ui_mode, UIMode::Clock);
    assert_eq!(s.layer, LayerLevel::Overlay);
}

#[test]
fn display_results_touches_only_the_results() {
    let mut s = ShunpoState::new();
    handle_ui_message(GuiMessage::Wake, &mut s);
    handle_ui_message(
        GuiMessage::DisplayResults(SearchMessageData {
            success: true,
            results: vec![entity("firefox"), entity("files")],
        }),
        &mut s,
    );
    assert_eq!(s.results_data.len(), 2);
    assert_eq!(s.ui_mode, UIMode::Launcher);
    assert_eq!(s.layer, LayerLevel::Overlay);
    assert_eq!(s.keyboard_mode, KeyboardMode::Exclusive);
}

#[test]
fn workspace_updates_touch_only_the_workspace_strip() {
    let mut s = ShunpoState::new();
    handle_ui_message(
        GuiMessage::UpdateWorkspace(vec![WorkspaceMessage {
            id: "1".to_string(),
            focused: true,
            xpos: 0,
        }]),
        &mut s,
    );
    assert_eq!(s.workspaces_data.len(), 1);
    assert_eq!(s.ui_mode, UIMode::Clock);
}

#[test]
fn selected_row_maps_to_the_stored_entity() {
    let data = vec![entity("a"), entity("b")];
    assert_eq!(result_data_from_idx(&data, Some(1)).unwrap().alias, "b");
    assert_eq!(result_data_from_idx(&data, Some(2)), None);
    assert_eq!(result_data_from_idx(&data, None), None);
}
