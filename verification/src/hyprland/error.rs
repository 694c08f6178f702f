use vstd::prelude::*;

verus! {

/// Errors raised by the compositor integration: protocol parse failures,
/// state-snapshot fetch failures, and degenerate placement cases.
#[derive(Clone, Copy, Debug, PartialEq, Eq, Structural)]
pub enum HyprError {
    EventParseFailed,
    HyprCtlFetchLayers,
    HyprCtlFetchMonitors,
    HyprCtlFetchWorkspaces,
    MonitorIdNotFound,
    ParseIntError,
    ShunpoInvariantAllFullscreen,
    ShunpoInvariantTargetTopScore,
    ShunpoNotFound,
    ShunpoTargetNoSolution,
    WorkspaceIdNotFound,
    Unspecified,
}

} // verus!
