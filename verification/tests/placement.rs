use shunpo::hyprland::error::HyprError;
use shunpo::hyprland::state::HyprlandState;
use shunpo::hyprland::structs::{
    Layer, LayerLevel, Layers, Levels, Monitor, MonitorLayers, Workspace, WorkspaceInfo,
};

fn monitor(id: i32, name: &str, focused: bool, active_ws: i32) -> Monitor {
    Monitor {
        id,
        name: name.to_string(),
        description: format!("monitor {}", name),
        focused,
        active_workspace: WorkspaceInfo { id: active_ws, name: format!("ws{}", active_ws) },
        special_workspace: WorkspaceInfo { id: 0, name: String::new() },
        disabled: false,
    }
}

fn workspace(id: i32, monitor: &str, has_fullscreen: bool) -> Workspace {
    Workspace {
        id,
        name: format!("ws{}", id),
        monitor: monitor.to_string(),
        monitor_id: 0,
        windows: 1,
        has_fullscreen,
        last_window: String::new(),
        last_window_title: String::new(),
        is_persistent: false,
    }
}

fn layer(namespace: &str) -> Layer {
    Layer {
        address: "0xabc".to_string(),
        x: 0,
        y: 0,
        w: 100,
        h: 100,
        namespace: namespace.to_string(),
        pid: 1,
    }
}

fn monitor_layers(bottom: Vec<Layer>, overlay: Vec<Layer>) -> MonitorLayers {
    MonitorLayers {
        levels: Levels { background: Vec::new(), bottom, top: Vec::new(), overlay },
    }
}

fn no_layers() -> Layers {
    Layers { monitors: Vec::new() }
}

#[test]
fn weighted_monitor_wins_overlay() {
    // DP-1 is listed first but DP-3 carries the higher priority weight
    let state = HyprlandState::populate(
        no_layers(),
        vec![monitor(1, "DP-1", true, 1), monitor(2, "DP-3", false, 2)],
        vec![workspace(1, "DP-1", false), workspace(2, "DP-3", false)],
    );
    let (name, level) = state.shunpo_get_target().unwrap();
    assert_eq!(name, "DP-3");
    assert_eq!(level, LayerLevel::Overlay);
}

#[test]
fn all_fullscreen_falls_back_to_first_monitor_bottom() {
    let state = HyprlandState::populate(
        no_layers(),
        vec![monitor(1, "DP-3", true, 1), monitor(2, "DP-2", false, 2)],
        vec![workspace(1, "DP-3", true), workspace(2, "DP-2", true)],
    );
    let (name, level) = state.shunpo_get_target().unwrap();
    assert_eq!(name, "DP-3");
    assert_eq!(level, LayerLevel::Bottom);
}

#[test]
fn zero_monitors_is_no_solution() {
    let state = HyprlandState::populate(no_layers(), Vec::new(), Vec::new());
    assert_eq!(
        state.shunpo_get_target(),
        Err(HyprError::ShunpoTargetNoSolution)
    );
}

#[test]
fn unweighted_tie_goes_to_the_first_monitor() {
    let state = HyprlandState::populate(
        no_layers(),
        vec![monitor(1, "HDMI-1", false, 1), monitor(2, "HDMI-2", false, 2)],
        vec![workspace(1, "HDMI-1", false), workspace(2, "HDMI-2", false)],
    );
    let (name, level) = state.shunpo_get_target().unwrap();
    assert_eq!(name, "HDMI-1");
    assert_eq!(level, LayerLevel::Overlay);
}

#[test]
fn fullscreen_monitor_is_not_a_candidate() {
    // the heavier monitor is fullscreen, so the lighter one wins overlay
    let state = HyprlandState::populate(
        no_layers(),
        vec![monitor(1, "DP-3", false, 1), monitor(2, "DP-1", false, 2)],
        vec![workspace(1, "DP-3", true), workspace(2, "DP-1", false)],
    );
    let (name, level) = state.shunpo_get_target().unwrap();
    assert_eq!(name, "DP-1");
    assert_eq!(level, LayerLevel::Overlay);
}

#[test]
fn monitor_without_known_workspace_is_not_a_candidate() {
    let state = HyprlandState::populate(
        no_layers(),
        vec![monitor(1, "DP-3", false, 9), monitor(2, "DP-1", false, 2)],
        vec![workspace(2, "DP-1", false)],
    );
    let (name, level) = state.shunpo_get_target().unwrap();
    assert_eq!(name, "DP-1");
    assert_eq!(level, LayerLevel::Overlay);
}

fn state_with_surface_on(mon: &str, level: LayerLevel) -> HyprlandState {
    let (bottom, overlay) = match level {
        LayerLevel::Bottom => (vec![layer("shunpo")], Vec::new()),
        _ => (Vec::new(), vec![layer("shunpo")]),
    };
    HyprlandState::populate(
        Layers { monitors: vec![(mon.to_string(), monitor_layers(bottom, overlay))] },
        vec![monitor(1, "DP-3", true, 1), monitor(2, "DP-1", false, 2)],
        vec![workspace(1, "DP-3", false), workspace(2, "DP-1", false)],
    )
}

#[test]
fn retarget_is_false_exactly_when_surface_sits_on_the_target() {
    // target is (DP-3, Overlay)
    let on_target = state_with_surface_on("DP-3", LayerLevel::Overlay);
    assert_eq!(on_target.shunpo_should_retarget(), Ok(false));

    let wrong_monitor = state_with_surface_on("DP-1", LayerLevel::Overlay);
    assert_eq!(wrong_monitor.shunpo_should_retarget(), Ok(true));

    let wrong_level = state_with_surface_on("DP-3", LayerLevel::Bottom);
    assert_eq!(wrong_level.shunpo_should_retarget(), Ok(true));
}

#[test]
fn missing_surface_is_reported_not_found() {
    let state = HyprlandState::populate(
        no_layers(),
        vec![monitor(1, "DP-3", true, 1)],
        vec![workspace(1, "DP-3", false)],
    );
    assert_eq!(state.shunpo_should_retarget(), Err(HyprError::ShunpoNotFound));
    assert_eq!(state.get_shunpo_monitor_layer(), Err(HyprError::ShunpoNotFound));
}

#[test]
fn surface_is_found_overlay_before_bottom_in_monitor_order() {
    let layers = Layers {
        monitors: vec![
            ("DP-1".to_string(), monitor_layers(vec![layer("bar")], Vec::new())),
            ("DP-2".to_string(), monitor_layers(vec![layer("shunpo")], vec![layer("shunpo")])),
        ],
    };
    let found =
        HyprlandState::find_monitor_layer_for_namespace("shunpo", &layers.monitors).unwrap();
    assert_eq!(found, ("DP-2".to_string(), LayerLevel::Overlay));
}

#[test]
fn rebuild_workspaces_changes_only_the_workspace_map() {
    let mut state = HyprlandState::populate(
        no_layers(),
        vec![monitor(1, "DP-3", true, 1)],
        vec![workspace(1, "DP-3", false)],
    );
    let monitors_before = state.monitors.clone();
    let layers_before = state.layers.clone();
    let focused_before = state.focused_monitor.clone();

    state.rebuild_workspaces(vec![workspace(1, "DP-3", true), workspace(5, "DP-3", false)]);

    assert_eq!(state.monitors, monitors_before);
    assert_eq!(state.layers, layers_before);
    assert_eq!(state.focused_monitor, focused_before);
    assert_eq!(state.workspaces.len(), 2);
    assert_eq!(state.workspaces[0].0, 1);
    assert!(state.workspaces[0].1.has_fullscreen);
    assert_eq!(state.workspaces[1].0, 5);
}

#[test]
fn removing_a_nonexistent_monitor_reports_not_found_and_changes_nothing() {
    let mut state = HyprlandState::populate(
        no_layers(),
        vec![monitor(1, "DP-3", true, 1), monitor(2, "DP-1", false, 2)],
        vec![workspace(1, "DP-3", false)],
    );
    let monitors_before = state.monitors.clone();
    let r = state.remove_monitor("HDMI-9".to_string());
    assert_eq!(r, Err(HyprError::MonitorIdNotFound));
    assert_eq!(state.monitors, monitors_before);
}

#[test]
fn removing_a_monitor_takes_it_out_of_the_map() {
    let mut state = HyprlandState::populate(
        no_layers(),
        vec![monitor(1, "DP-3", true, 1), monitor(2, "DP-1", false, 2)],
        vec![workspace(1, "DP-3", false)],
    );
    let removed = state.remove_monitor("DP-3".to_string()).unwrap();
    assert_eq!(removed.name, "DP-3");
    assert_eq!(state.monitors.len(), 1);
    assert_eq!(state.monitors[0].0, "DP-1");
}

#[test]
fn removing_a_nonexistent_workspace_reports_not_found() {
    let mut state = HyprlandState::populate(
        no_layers(),
        vec![monitor(1, "DP-3", true, 1)],
        vec![workspace(1, "DP-3", false)],
    );
    assert_eq!(state.remove_workspace(9), Err(HyprError::WorkspaceIdNotFound));
    let removed = state.remove_workspace(1).unwrap();
    assert_eq!(removed.id, 1);
    assert!(state.workspaces.is_empty());
}

#[test]
fn populate_records_the_first_focused_monitor() {
    let state = HyprlandState::populate(
        no_layers(),
        vec![monitor(1, "DP-1", false, 1), monitor(2, "DP-2", true, 2), monitor(3, "DP-3", true, 3)],
        Vec::new(),
    );
    assert_eq!(state.focused_monitor, Some("DP-2".to_string()));
    assert_eq!(state.shunpo_namespace, "shunpo");

    let none = HyprlandState::populate(no_layers(), vec![monitor(1, "DP-1", false, 1)], Vec::new());
    assert_eq!(none.focused_monitor, None);
}

#[test]
fn update_focused_monitor_sets_the_field() {
    let mut state = HyprlandState::default();
    state.update_focused_monitor("DP-2".to_string());
    assert_eq!(state.focused_monitor, Some("DP-2".to_string()));
}
