//! Plain-value models of the compositor's objects. The compositor reports
//! these over its control interface; the adapter that talks to it converts
//! the raw payloads into these types, and every rule in this crate is stated
//! over them.

use vstd::prelude::*;
use crate::hyprland::error::HyprError;
use crate::text::str_eq;

verus! {

/// Fullscreen state carried by the `fullscreen` wire event: `0` means a
/// client left fullscreen, `1` means a client entered fullscreen. Any other
/// payload is rejected.
#[derive(Clone, Copy, Debug, PartialEq, Eq, Structural)]
pub enum FullscreenEvent {
    Exited,
    Entered,
}

/// What `FullscreenEvent::parse_raw` returns for a given payload.
pub open spec fn parse_raw_spec(s: Seq<char>) -> Result<FullscreenEvent, HyprError> {
    if s == "0"@ {
        Ok(FullscreenEvent::Exited)
    } else if s == "1"@ {
        Ok(FullscreenEvent::Entered)
    } else {
        Err(HyprError::EventParseFailed)
    }
}

impl FullscreenEvent {
    /// Parses the payload of a `fullscreen` event; only the exact strings
    /// `0` and `1` are accepted.
    pub fn parse_raw(value: &str) -> (r: Result<FullscreenEvent, HyprError>)
        ensures
            r == parse_raw_spec(value@),
    {
        if str_eq(value, "0") {
            Ok(FullscreenEvent::Exited)
        } else if str_eq(value, "1") {
            Ok(FullscreenEvent::Entered)
        } else {
            Err(HyprError::EventParseFailed)
        }
    }
}

/// One virtual desktop, bound to a monitor by name.
#[derive(Clone, Debug, PartialEq)]
pub struct Workspace {
    pub id: i32,
    pub name: String,
    pub monitor: String,
    pub monitor_id: i32,
    pub windows: i32,
    pub has_fullscreen: bool,
    pub last_window: String,
    pub last_window_title: String,
    pub is_persistent: bool,
}

/// A workspace reference embedded in another object.
#[derive(Clone, Debug, PartialEq)]
pub struct WorkspaceInfo {
    pub id: i32,
    pub name: String,
}

/// One client window, as far as the rules here read it.
#[derive(Clone, Debug, PartialEq)]
pub struct Client {
    pub address: String,
    pub mapped: bool,
    pub hidden: bool,
    pub workspace: WorkspaceInfo,
    pub floating: bool,
    pub monitor: Option<u32>,
    pub class: String,
    pub title: String,
    pub initial_class: String,
    pub initial_title: String,
    pub pid: u32,
    pub xwayland: bool,
    pub pinned: bool,
    pub fullscreen: u32,
    pub fullscreen_client: u32,
    pub focus_history_id: u32,
}

/// One physical output, as far as the rules here read it.
#[derive(Clone, Debug, PartialEq)]
pub struct Monitor {
    pub id: i32,
    pub name: String,
    pub description: String,
    pub focused: bool,
    pub active_workspace: WorkspaceInfo,
    pub special_workspace: WorkspaceInfo,
    pub disabled: bool,
}

/// The compositor's stacking ranks for layer surfaces.
#[derive(Clone, Copy, Debug, PartialEq, Eq, Structural)]
pub enum LayerLevel {
    Background,
    Bottom,
    Top,
    Overlay,
}

/// One layer surface attached to a stacking rank of a monitor.
#[derive(Clone, Debug, PartialEq)]
pub struct Layer {
    pub address: String,
    pub x: i16,
    pub y: i16,
    pub w: i16,
    pub h: i16,
    pub namespace: String,
    pub pid: i32,
}

/// The layer surfaces of one monitor, grouped by stacking rank.
#[derive(Clone, Debug, PartialEq)]
pub struct Levels {
    pub background: Vec<Layer>,
    pub bottom: Vec<Layer>,
    pub top: Vec<Layer>,
    pub overlay: Vec<Layer>,
}

/// All layer surfaces of one monitor.
#[derive(Clone, Debug, PartialEq)]
pub struct MonitorLayers {
    pub levels: Levels,
}

/// Layer surfaces of every monitor, keyed by monitor name.
#[derive(Clone, Debug, PartialEq)]
pub struct Layers {
    pub monitors: Vec<(String, MonitorLayers)>,
}

} // verus!
