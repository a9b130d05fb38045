//! The workspace state with its count and labels.
use vstd::prelude::*;

verus! {

/// The active workspace, which workspaces hold windows, how many there
/// are, and the label of each.
pub struct WorkspaceInfo {
    pub active: i32,
    pub occupied: Vec<bool>,
    pub total: i32,
    pub labels: Vec<String>,
}

} // verus!
