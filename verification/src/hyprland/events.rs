//! How the event listener reacts to parsed events. The listener task reads
//! lines from the compositor's socket outside this crate; for every parsed
//! event it asks `state_transition` what to do to the snapshot, applies the
//! action (fetching fresh data where a rebuild is asked for), and, where the
//! event can change placement, asks `check_and_retarget` whether to emit a
//! placement-change message.

use vstd::prelude::*;
use crate::coordinator::types::{CoordinatorMessage, GuiMessage, HyprlandEventData};
use crate::hyprland::event_parser::HyprlandEvent;
use crate::hyprland::state::{find_ns_from, get_target_spec, HyprlandState};
use crate::hyprland::structs::LayerLevel;
use crate::text::str_eq;

verus! {

/// What an event does to the state snapshot.
#[derive(Debug, PartialEq)]
pub enum StateAction {
    RebuildAll,
    RebuildWorkspaces,
    RebuildMonitors,
    RemoveWorkspace(i32),
    RemoveMonitor(String),
    SetFocusedMonitor(String),
    NoAction,
}

/// Decides, for one parsed event, how the snapshot changes and whether the
/// event can change placement (so the caller re-runs the placement engine).
///
/// A layer opening under the overlay's own namespace, a workspace switch
/// and a fullscreen toggle rebuild the whole snapshot; workspace and
/// monitor lifecycle events rebuild or patch one map; a monitor focus
/// change is a point update; everything else leaves the snapshot alone.
/// Only the workspace switch and the fullscreen toggle can change
/// placement.
pub fn state_transition(event: HyprlandEvent, state: &HyprlandState) -> (r: (StateAction, bool))
    ensures
        match event {
            HyprlandEvent::Openlayer { nspace } => r.1 == false && if nspace@
                == state.shunpo_namespace@ {
                r.0 is RebuildAll
            } else {
                r.0 is NoAction
            },
            HyprlandEvent::Focusedmonv2 { mname, wid } => r.1 == false && (
            r.0 matches StateAction::SetFocusedMonitor(n) && n == mname),
            HyprlandEvent::Workspacev2 { .. } => r.0 is RebuildAll && r.1 == true,
            HyprlandEvent::Createworkspacev2 { .. } => r.0 is RebuildWorkspaces && r.1 == false,
            HyprlandEvent::Destroyworkspacev2 { wid, wname } => r.1 == false && (
            r.0 matches StateAction::RemoveWorkspace(w) && w == wid),
            HyprlandEvent::Monitoraddedv2 { .. } => r.0 is RebuildMonitors && r.1 == false,
            HyprlandEvent::Monitorremovedv2 { mid, mname, mdesc } => r.1 == false && (
            r.0 matches StateAction::RemoveMonitor(n) && n == mname),
            HyprlandEvent::Fullscreen { .. } => r.0 is RebuildAll && r.1 == true,
            _ => r.0 is NoAction && r.1 == false,
        },
{
    match event {
        HyprlandEvent::Openlayer { nspace } => {
            if str_eq(nspace.as_str(), state.shunpo_namespace.as_str()) {
                (StateAction::RebuildAll, false)
            } else {
                (StateAction::NoAction, false)
            }
        },
        HyprlandEvent::Focusedmonv2 { mname, wid: _ } => (
            StateAction::SetFocusedMonitor(mname),
            false,
        ),
        HyprlandEvent::Workspacev2 { .. } => (StateAction::RebuildAll, true),
        HyprlandEvent::Createworkspacev2 { .. } => (StateAction::RebuildWorkspaces, false),
        HyprlandEvent::Destroyworkspacev2 { wid, wname: _ } => (
            StateAction::RemoveWorkspace(wid),
            false,
        ),
        HyprlandEvent::Monitoraddedv2 { .. } => (StateAction::RebuildMonitors, false),
        HyprlandEvent::Monitorremovedv2 { mid: _, mname, mdesc: _ } => (
            StateAction::RemoveMonitor(mname),
            false,
        ),
        HyprlandEvent::Fullscreen { .. } => (StateAction::RebuildAll, true),
        _ => (StateAction::NoAction, false),
    }
}

/// Where the overlay surface should move, if anywhere: the placement
/// engine's target when it is known, differs from where the surface sits
/// now, and the surface was found at all.
pub open spec fn retarget_decision(s: HyprlandState) -> Option<(Seq<char>, LayerLevel)> {
    match find_ns_from(s.layers@, "shunpo"@, 0) {
        Some(cur) => match get_target_spec(s) {
            Ok(t) => if cur != t {
                Some(t)
            } else {
                None
            },
            Err(_) => None,
        },
        None => None,
    }
}

/// Runs the placement engine and compares with the overlay surface's
/// current place: the new (monitor, rank) if the surface should move,
/// nothing otherwise (also nothing when the surface is missing or no
/// target exists; those cases resolve on a later event).
pub fn check_and_retarget(state: &HyprlandState) -> (r: Option<(String, LayerLevel)>)
    requires
        state.wf(),
    ensures
        match retarget_decision(*state) {
            Some(t) => r matches Some(p) && p.0@ == t.0 && p.1 == t.1,
            None => r is None,
        },
{
    match state.shunpo_should_retarget() {
        Ok(true) => {},
        Ok(false) => {
            return None;
        },
        Err(_) => {
            return None;
        },
    }
    match state.shunpo_get_target() {
        Ok(p) => Some(p),
        Err(_) => None,
    }
}

/// Wraps a placement target as the coordinator message the GUI consumer
/// understands.
pub fn package_gui_message(target_monitor: &String, target_layer: LayerLevel) -> (r:
    CoordinatorMessage)
    ensures
        r matches CoordinatorMessage::HyprlandEvent(d) && (
        d.gui_msg matches GuiMessage::WaylandMonitorLayer { target_monitor: m, target_layer: l }
            && m == *target_monitor && l == target_layer),
{
    CoordinatorMessage::HyprlandEvent(
        HyprlandEventData {
            gui_msg: GuiMessage::WaylandMonitorLayer {
                target_monitor: target_monitor.clone(),
                target_layer,
            },
        },
    )
}

} // verus!
