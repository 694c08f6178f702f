use shunpo::coordinator::listener::{clean_command, route_message};
use shunpo::coordinator::types::{
    CoordinatorMessage, FeedbackData, GuiMessage, HyprlandEventData, SearchMessageData,
    ShunpoSocketEventData,
};
use shunpo::hyprland::events::{package_gui_message, state_transition, StateAction};
use shunpo::hyprland::event_parser::HyprlandEvent;
use shunpo::hyprland::state::HyprlandState;
use shunpo::hyprland::structs::LayerLevel;
use shunpo::search::entity_model::{Dispatcher, LauncherEntity};

fn entity(alias: &str, command: &str) -> LauncherEntity {
    LauncherEntity {
        alias: alias.to_string(),
        command: command.to_string(),
        dispatcher: Dispatcher::Shell,
    }
}

#[test]
fn one_message_per_channel_yields_exactly_four_outbound() {
    let inbound = vec![
        CoordinatorMessage::HyprlandEvent(HyprlandEventData { gui_msg: GuiMessage::Wake }),
        CoordinatorMessage::ShunpoSocketEvent(ShunpoSocketEventData::ToggleUiMode),
        CoordinatorMessage::SearchMessage(SearchMessageData { success: true, results: vec![] }),
        CoordinatorMessage::Feedback(FeedbackData::GuiMessagePassthrough(GuiMessage::DeepSleep)),
    ];
    let mut outbound = 0;
    for msg in inbound {
        let (_dispatch, gui) = route_message(msg);
        if gui.is_some() {
            outbound += 1;
        }
    }
    assert_eq!(outbound, 4);
}

#[test]
fn hyprland_messages_pass_their_gui_message_through() {
    let msg = CoordinatorMessage::HyprlandEvent(HyprlandEventData {
        gui_msg: GuiMessage::WaylandMonitorLayer {
            target_monitor: "DP-3".to_string(),
            target_layer: LayerLevel::Overlay,
        },
    });
    let (dispatch, gui) = route_message(msg);
    assert!(dispatch.is_none());
    assert_eq!(
        gui,
        Some(GuiMessage::WaylandMonitorLayer {
            target_monitor: "DP-3".to_string(),
            target_layer: LayerLevel::Overlay,
        })
    );
}

#[test]
fn socket_toggle_becomes_toggle_ui_mode() {
    let (dispatch, gui) =
        route_message(CoordinatorMessage::ShunpoSocketEvent(ShunpoSocketEventData::ToggleUiMode));
    assert!(dispatch.is_none());
    assert_eq!(gui, Some(GuiMessage::ToggleUiMode));
}

#[test]
fn search_results_are_displayed() {
    let data = SearchMessageData { success: true, results: vec![entity("firefox", "firefox")] };
    let (dispatch, gui) = route_message(CoordinatorMessage::SearchMessage(data));
    assert!(dispatch.is_none());
    match gui {
        Some(GuiMessage::DisplayResults(d)) => {
            assert!(d.success);
            assert_eq!(d.results.len(), 1);
            assert_eq!(d.results[0].alias, "firefox");
        },
        other => panic!("expected DisplayResults, got {:?}", other),
    }
}

#[test]
fn feedback_passthrough_is_forwarded() {
    let (dispatch, gui) = route_message(CoordinatorMessage::Feedback(
        FeedbackData::GuiMessagePassthrough(GuiMessage::Sleep),
    ));
    assert!(dispatch.is_none());
    assert_eq!(gui, Some(GuiMessage::Sleep));
}

#[test]
fn running_an_entity_dispatches_and_sleeps() {
    let (dispatch, gui) = route_message(CoordinatorMessage::Feedback(FeedbackData::Run(entity(
        "Firefox",
        "firefox %u",
    ))));
    let req = dispatch.unwrap();
    assert_eq!(req.command, "firefox");
    assert_eq!(req.dispatcher, Dispatcher::Shell);
    assert_eq!(gui, Some(GuiMessage::Sleep));
}

#[test]
fn commands_lose_url_field_codes_and_outer_spaces() {
    assert_eq!(clean_command("firefox %u"), "firefox");
    assert_eq!(clean_command("firefox %U"), "firefox");
    assert_eq!(clean_command("firefox %U%u"), "firefox");
    assert_eq!(clean_command("  kitty  "), "kitty");
    assert_eq!(clean_command("plain"), "plain");
    assert_eq!(clean_command("evince %f"), "evince %f");
}

#[test]
fn state_transitions_follow_the_event_kind() {
    let state = HyprlandState::default();
    assert_eq!(
        state_transition(
            HyprlandEvent::Openlayer { nspace: "shunpo".to_string() },
            &state
        ),
        (StateAction::RebuildAll, false)
    );
    assert_eq!(
        state_transition(
            HyprlandEvent::Openlayer { nspace: "notification".to_string() },
            &state
        ),
        (StateAction::NoAction, false)
    );
    assert_eq!(
        state_transition(
            HyprlandEvent::Focusedmonv2 { mname: "DP-2".to_string(), wid: 1 },
            &state
        ),
        (StateAction::SetFocusedMonitor("DP-2".to_string()), false)
    );
    assert_eq!(
        state_transition(
            HyprlandEvent::Workspacev2 { wid: 1, wname: "web".to_string() },
            &state
        ),
        (StateAction::RebuildAll, true)
    );
    assert_eq!(
        state_transition(
            HyprlandEvent::Destroyworkspacev2 { wid: 4, wname: "x".to_string() },
            &state
        ),
        (StateAction::RemoveWorkspace(4), false)
    );
    assert_eq!(
        state_transition(
            HyprlandEvent::Monitorremovedv2 {
                mid: 1,
                mname: "DP-1".to_string(),
                mdesc: "d".to_string(),
            },
            &state
        ),
        (StateAction::RemoveMonitor("DP-1".to_string()), false)
    );
    assert_eq!(
        state_transition(HyprlandEvent::Togglegroup, &state),
        (StateAction::NoAction, false)
    );
}

#[test]
fn packaged_placement_message_wraps_the_target() {
    let msg = package_gui_message(&"DP-3".to_string(), LayerLevel::Bottom);
    assert_eq!(
        msg,
        CoordinatorMessage::HyprlandEvent(HyprlandEventData {
            gui_msg: GuiMessage::WaylandMonitorLayer {
                target_monitor: "DP-3".to_string(),
                target_layer: LayerLevel::Bottom,
            },
        })
    );
}
