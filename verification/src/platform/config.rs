//! Where the app bar docks, and how high it is.
use vstd::prelude::*;

verus! {

/// The screen edge the bar docks to.
#[derive(PartialEq, Eq, Structural, Clone, Copy, Debug)]
pub enum AppBarEdge {
    Top,
    Bottom,
    Left,
    Right,
}

/// The shell's ABE_* code of an edge.
pub open spec fn abe_code(edge: AppBarEdge) -> u32 {
    match edge {
        AppBarEdge::Top => 1,
        AppBarEdge::Bottom => 3,
        AppBarEdge::Left => 0,
        AppBarEdge::Right => 2,
    }
}

impl AppBarEdge {
    /// The shell's ABE_* code of this edge (left 0, top 1, right 2, bottom 3).
    pub fn to_abe(&self) -> (code: u32)
        ensures
            code == abe_code(*self),
    {
        match self {
            AppBarEdge::Top => 1,
            AppBarEdge::Bottom => 3,
            AppBarEdge::Left => 0,
            AppBarEdge::Right => 2,
        }
    }
}

/// The bar's thickness and edge.
#[derive(PartialEq, Eq, Structural, Clone, Copy, Debug)]
pub struct StatusBarConfig {
    pub height: i32,
    pub edge: AppBarEdge,
}

impl Default for StatusBarConfig {
    /// A 34-pixel bar on the top edge.
    fn default() -> (c: Self)
        ensures
            c.height == 34,
            c.edge == AppBarEdge::Top,
    {
        StatusBarConfig { height: 34, edge: AppBarEdge::Top }
    }
}

} // verus!
