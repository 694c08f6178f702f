//! Messages of the coordinator: what the four inbound sources send, and
//! what goes out to the GUI.

use vstd::prelude::*;
use crate::hyprland::structs::LayerLevel;
use crate::search::entity_model::LauncherEntity;

verus! {

/// One inbound message from any of the coordinator's sources.
#[derive(Debug, PartialEq)]
pub enum CoordinatorMessage {
    HyprlandEvent(HyprlandEventData),
    ShunpoSocketEvent(ShunpoSocketEventData),
    RipgrepResult(RipgrepResultData),
    SearchMessage(SearchMessageData),
    Feedback(FeedbackData),
}

/// A placement-change message produced by the compositor event listener,
/// already translated for the GUI.
#[derive(Debug, PartialEq)]
pub struct HyprlandEventData {
    pub gui_msg: GuiMessage,
}

/// What the local control socket can ask for.
#[derive(Clone, Copy, Debug, PartialEq, Eq, Structural)]
pub enum ShunpoSocketEventData {
    ToggleUiMode,
}

/// A raw content-search result; reserved, not routed to the GUI.
#[derive(Debug, PartialEq)]
pub struct RipgrepResultData {
    success: bool,
    results: Option<Vec<String>>,
}

/// A batch of ranked search results for the GUI.
#[derive(Debug, PartialEq)]
pub struct SearchMessageData {
    pub success: bool,
    pub results: Vec<LauncherEntity>,
}

/// What the GUI feeds back to the coordinator.
#[derive(Debug, PartialEq)]
pub enum FeedbackData {
    GuiMessagePassthrough(GuiMessage),
    Run(LauncherEntity),
}

/// The closed set of messages the GUI consumes.
#[derive(Debug, PartialEq)]
pub enum GuiMessage {
    ToggleUiMode,
    Wake,
    Sleep,
    DeepSleep,
    DisplayResults(SearchMessageData),
    UpdateWorkspace(Vec<WorkspaceMessage>),
    WaylandMonitorLayer { target_monitor: String, target_layer: LayerLevel },
}

/// One workspace indicator for the GUI's workspace strip.
#[derive(Clone, Debug, PartialEq)]
pub struct WorkspaceMessage {
    pub id: String,
    pub focused: bool,
    pub xpos: i32,
}

} // verus!
