//! Dock placement enums.

use vstd::prelude::*;

verus! {

/// The screen edge the dock sits on.
#[derive(Debug, Clone, Copy, PartialEq, Eq, Hash, Structural)]
pub enum DockEdge {
    Top,
    Bottom,
    Left,
    Right,
}

impl DockEdge {
    /// The variant a missing setting takes.
    pub open spec fn spec_default() -> DockEdge {
        DockEdge::Bottom
    }
}

impl Default for DockEdge {
    fn default() -> (r: Self)
        ensures
            r == DockEdge::Bottom,
    {
        DockEdge::Bottom
    }
}

/// Where the launcher button sits in the dock (`none` in the config file is `Off`).
#[derive(Debug, Clone, Copy, PartialEq, Eq, Hash, Structural)]
pub enum DockLauncherPosition {
    /// No launcher button.
    Off,
    Start,
    End,
}

impl DockLauncherPosition {
    /// The variant a missing setting takes.
    pub open spec fn spec_default() -> DockLauncherPosition {
        DockLauncherPosition::Off
    }
}

impl Default for DockLauncherPosition {
    fn default() -> (r: Self)
        ensures
            r == DockLauncherPosition::Off,
    {
        DockLauncherPosition::Off
    }
}

} // verus!
