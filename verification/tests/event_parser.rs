use shunpo::hyprland::error::HyprError;
use shunpo::hyprland::event_parser::HyprlandEvent;
use shunpo::hyprland::structs::FullscreenEvent;

#[test]
fn fullscreen_events_parse() {
    assert!(FullscreenEvent::parse_raw("0").is_ok());
    assert!(FullscreenEvent::parse_raw("1").is_ok());
    assert!(FullscreenEvent::parse_raw("any").is_err());
}

// invalid input

#[test]
fn hyprlandevent_rejects_invalid_event() {
    assert!(HyprlandEvent::parse_event("not an event").is_err());
}

// workspace

#[test]
fn hyprlandevent_parses_workspace() {
    assert!(HyprlandEvent::parse_event("workspace>>1").is_ok());
}

#[test]
fn hyprlandevent_rejects_workspace_not_int() {
    assert!(HyprlandEvent::parse_event("workspace>>only accepts number").is_err());
}

// workspacev2

#[test]
fn hyprlandevent_parses_workspacev2() {
    assert!(HyprlandEvent::parse_event("workspacev2>>1,DP-1").is_ok());
}

#[test]
fn hyprlandevent_rejects_workspacev2_bad_order() {
    assert!(HyprlandEvent::parse_event("workspacev2>>DP-1,1").is_err());
}

#[test]
fn hyprlandevent_rejects_workspacev2_no_delimiter() {
    assert!(HyprlandEvent::parse_event("workspacev2>>no delimiter").is_err());
}

// focusedmon

#[test]
fn hyprlandevent_parses_focusedmon() {
    assert!(HyprlandEvent::parse_event("focusedmon>>1,workspace_name").is_ok());
}

#[test]
fn hyprlandevent_rejects_focusedmon_no_delimiter() {
    assert!(HyprlandEvent::parse_event("focusedmon>>no delimiter").is_err());
}

// fullscreen

#[test]
fn hyprlandevent_parses_fullscreen_exit() {
    assert!(HyprlandEvent::parse_event("fullscreen>>0").is_ok());
}

#[test]
fn hyprlandevent_parses_fullscreen_enter() {
    assert!(HyprlandEvent::parse_event("fullscreen>>1").is_ok());
}

#[test]
fn hyprlandevent_rejects_fullscreen_not_int() {
    assert!(HyprlandEvent::parse_event("fullscreen>>only accepts 0 or 1").is_err());
}

#[test]
fn hyprlandevent_rejects_fullscreen_int_out_of_range() {
    assert!(HyprlandEvent::parse_event("fullscreen>>10").is_err());
}

// exact variants and fields

#[test]
fn workspace_event_carries_id() {
    assert_eq!(
        HyprlandEvent::parse_event("workspace>>7"),
        Ok(HyprlandEvent::Workspace { wid: 7 })
    );
}

#[test]
fn workspacev2_event_carries_id_and_name() {
    assert_eq!(
        HyprlandEvent::parse_event("workspacev2>>3,web"),
        Ok(HyprlandEvent::Workspacev2 { wid: 3, wname: "web".to_string() })
    );
}

#[test]
fn extra_commas_stay_in_the_last_field() {
    assert_eq!(
        HyprlandEvent::parse_event("workspacev2>>3,a,b,c"),
        Ok(HyprlandEvent::Workspacev2 { wid: 3, wname: "a,b,c".to_string() })
    );
}

#[test]
fn fullscreen_event_carries_state() {
    assert_eq!(
        HyprlandEvent::parse_event("fullscreen>>1"),
        Ok(HyprlandEvent::Fullscreen { fstate: FullscreenEvent::Entered })
    );
    assert_eq!(
        HyprlandEvent::parse_event("fullscreen>>0"),
        Ok(HyprlandEvent::Fullscreen { fstate: FullscreenEvent::Exited })
    );
}

#[test]
fn openwindow_event_carries_four_fields() {
    assert_eq!(
        HyprlandEvent::parse_event("openwindow>>abc123,web,firefox,Mozilla Firefox"),
        Ok(HyprlandEvent::Openwindow {
            waddr: "abc123".to_string(),
            wname: "web".to_string(),
            winclass: "firefox".to_string(),
            wintitle: "Mozilla Firefox".to_string(),
        })
    );
}

#[test]
fn openwindow_with_too_few_fields_fails() {
    assert_eq!(
        HyprlandEvent::parse_event("openwindow>>abc123,web,firefox"),
        Err(HyprError::EventParseFailed)
    );
}

#[test]
fn monitoraddedv2_event_parses_to_its_own_variant() {
    assert_eq!(
        HyprlandEvent::parse_event("monitoraddedv2>>1,DP-2,Dell 27"),
        Ok(HyprlandEvent::Monitoraddedv2 {
            mid: 1,
            mname: "DP-2".to_string(),
            mdesc: "Dell 27".to_string(),
        })
    );
}

#[test]
fn monitorremovedv2_event_carries_all_fields() {
    assert_eq!(
        HyprlandEvent::parse_event("monitorremovedv2>>2,DP-3,LG UltraFine"),
        Ok(HyprlandEvent::Monitorremovedv2 {
            mid: 2,
            mname: "DP-3".to_string(),
            mdesc: "LG UltraFine".to_string(),
        })
    );
}

#[test]
fn movewindowv2_event_carries_mixed_fields() {
    assert_eq!(
        HyprlandEvent::parse_event("movewindowv2>>dead01,4,mail"),
        Ok(HyprlandEvent::Movewindowv2 {
            waddr: "dead01".to_string(),
            wid: 4,
            wname: "mail".to_string(),
        })
    );
}

#[test]
fn unknown_event_name_is_ignored_not_an_error() {
    assert_eq!(
        HyprlandEvent::parse_event("somefutureevent>>1,2,3"),
        Ok(HyprlandEvent::IgnoredEvent)
    );
    assert_eq!(HyprlandEvent::parse_event(">>"), Ok(HyprlandEvent::IgnoredEvent));
}

#[test]
fn line_without_separator_fails() {
    assert_eq!(
        HyprlandEvent::parse_event("workspace"),
        Err(HyprError::EventParseFailed)
    );
    assert_eq!(HyprlandEvent::parse_event(""), Err(HyprError::EventParseFailed));
}

#[test]
fn nullary_events_parse() {
    assert_eq!(
        HyprlandEvent::parse_event("configreloaded>>"),
        Ok(HyprlandEvent::Configreloaded)
    );
    assert_eq!(HyprlandEvent::parse_event("togglegroup>>0,x"), Ok(HyprlandEvent::Togglegroup));
}

#[test]
fn workspace_ids_accept_signs_and_reject_overflow() {
    assert_eq!(
        HyprlandEvent::parse_event("workspace>>-2"),
        Ok(HyprlandEvent::Workspace { wid: -2 })
    );
    assert_eq!(
        HyprlandEvent::parse_event("workspace>>+5"),
        Ok(HyprlandEvent::Workspace { wid: 5 })
    );
    assert_eq!(
        HyprlandEvent::parse_event("workspace>>2147483647"),
        Ok(HyprlandEvent::Workspace { wid: 2147483647 })
    );
    assert_eq!(
        HyprlandEvent::parse_event("workspace>>-2147483648"),
        Ok(HyprlandEvent::Workspace { wid: -2147483648 })
    );
    assert_eq!(
        HyprlandEvent::parse_event("workspace>>2147483648"),
        Err(HyprError::ParseIntError)
    );
    assert_eq!(
        HyprlandEvent::parse_event("workspace>>-2147483649"),
        Err(HyprError::ParseIntError)
    );
    assert_eq!(
        HyprlandEvent::parse_event("workspace>>0012"),
        Ok(HyprlandEvent::Workspace { wid: 12 })
    );
    assert_eq!(HyprlandEvent::parse_event("workspace>>-"), Err(HyprError::ParseIntError));
    assert_eq!(HyprlandEvent::parse_event("workspace>>"), Err(HyprError::ParseIntError));
}

#[test]
fn minimized_action_must_fit_a_byte() {
    assert_eq!(
        HyprlandEvent::parse_event("minimized>>aa11,1"),
        Ok(HyprlandEvent::Minimized { waddr: "aa11".to_string(), action: 1 })
    );
    assert_eq!(
        HyprlandEvent::parse_event("minimized>>aa11,300"),
        Err(HyprError::ParseIntError)
    );
}
