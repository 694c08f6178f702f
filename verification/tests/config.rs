use shunpo::config::config::ShunpoConfig;
use shunpo::config::error::ConfigError;
use shunpo::hyprland::hyprctl::is_client_visible;
use shunpo::hyprland::structs::{Client, Monitor, WorkspaceInfo};
use shunpo::ui::ShunpoWidgetClock;

fn config(terminal: &str) -> ShunpoConfig {
    ShunpoConfig {
        monitor_priority: vec!["DP-3".to_string()],
        terminal_path: terminal.to_string(),
    }
}

#[test]
fn a_loaded_config_wins() {
    let r = ShunpoConfig::load_or_default(Ok(config("/usr/bin/kitty")), Err(ConfigError::Unspecified));
    assert_eq!(r, Ok(config("/usr/bin/kitty")));
}

#[test]
fn an_undecodable_config_is_never_overwritten() {
    let r = ShunpoConfig::load_or_default(
        Err(ConfigError::Deserialization),
        Ok(config("/usr/bin/kitty")),
    );
    assert_eq!(r, Err(ConfigError::Deserialization));
    assert!(!ShunpoConfig::should_regenerate(&ConfigError::Deserialization));
}

#[test]
fn any_other_load_failure_falls_back_to_the_regenerated_config() {
    let r = ShunpoConfig::load_or_default(Err(ConfigError::FileRead), Ok(config("/usr/bin/kitty")));
    assert_eq!(r, Ok(config("/usr/bin/kitty")));
    assert!(ShunpoConfig::should_regenerate(&ConfigError::FileRead));

    let r2 = ShunpoConfig::load_or_default(
        Err(ConfigError::FileRead),
        Err(ConfigError::NoSupportedTerminal),
    );
    assert_eq!(r2, Err(ConfigError::NoSupportedTerminal));
}

#[test]
fn monitors_are_collected_in_reported_order() {
    let monitors = vec![mk_monitor("DP-1", 1, false), mk_monitor("DP-3", 2, true)];
    let names = ShunpoConfig::collect_monitors(&monitors);
    assert_eq!(names, vec!["DP-1".to_string(), "DP-3".to_string()]);
}

#[test]
fn the_first_present_terminal_is_chosen() {
    let candidates = vec![
        "/usr/bin/ghostty".to_string(),
        "/usr/bin/kitty".to_string(),
        "/usr/bin/alacritty".to_string(),
    ];
    let r = ShunpoConfig::collect_terminals(&candidates, &vec![false, true, true]);
    assert_eq!(r, Ok("/usr/bin/kitty".to_string()));

    let none = ShunpoConfig::collect_terminals(&candidates, &vec![false, false, false]);
    assert_eq!(none, Err(ConfigError::NoSupportedTerminal));
}

fn mk_monitor(name: &str, active_ws: i32, focused: bool) -> Monitor {
    Monitor {
        id: 0,
        name: name.to_string(),
        description: String::new(),
        focused,
        active_workspace: WorkspaceInfo { id: active_ws, name: String::new() },
        special_workspace: WorkspaceInfo { id: 0, name: String::new() },
        disabled: false,
    }
}

fn mk_client(initial_title: &str, ws: i32) -> Client {
    Client {
        address: "0x1".to_string(),
        mapped: true,
        hidden: false,
        workspace: WorkspaceInfo { id: ws, name: String::new() },
        floating: false,
        monitor: Some(0),
        class: String::new(),
        title: String::new(),
        initial_class: String::new(),
        initial_title: initial_title.to_string(),
        pid: 1,
        xwayland: false,
        pinned: false,
        fullscreen: 0,
        fullscreen_client: 0,
        focus_history_id: 0,
    }
}

#[test]
fn a_client_is_visible_when_its_workspace_is_active_somewhere() {
    let monitors = vec![mk_monitor("DP-1", 1, true), mk_monitor("DP-2", 2, false)];
    let clients = vec![mk_client("shunpo", 2), mk_client("editor", 5)];
    assert!(is_client_visible(&monitors, &clients, "shunpo"));
    assert!(!is_client_visible(&monitors, &clients, "editor"));
    assert!(!is_client_visible(&monitors, &clients, "absent"));
}

#[test]
fn the_first_client_with_the_title_decides_visibility() {
    let monitors = vec![mk_monitor("DP-1", 1, true)];
    // the first client of this title sits on a hidden workspace; the later
    // one would be visible, but the first match decides
    let clients = vec![mk_client("shunpo", 9), mk_client("shunpo", 1)];
    assert!(!is_client_visible(&monitors, &clients, "shunpo"));
}

#[test]
fn clock_widgets_are_plain_markers() {
    assert_eq!(ShunpoWidgetClock::new(), ShunpoWidgetClock);
}
