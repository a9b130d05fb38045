//! The workspace state handed to the bar.
use vstd::prelude::*;

verus! {

/// The active workspace (1-based) and which workspaces hold windows.
pub struct WorkspaceInfo {
    pub active_workspace: i32,
    pub workspace_occupied: Vec<bool>,
}

} // verus!
