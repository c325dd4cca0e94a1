//! Desktop widget grid state.

use vstd::prelude::*;

verus! {

/// The desktop widget editor's alignment grid.
#[derive(Debug, Clone, PartialEq, Eq)]
pub struct DesktopWidgetsGridState {
    pub visible: bool,
    pub cell_size: i32,
    pub major_interval: i32,
}

impl DesktopWidgetsGridState {
    /// Every field holds its default value.
    pub open spec fn has_default_values(&self) -> bool {
        &&& self.visible
        &&& self.cell_size == 16
        &&& self.major_interval == 4
    }
}

impl Default for DesktopWidgetsGridState {
    fn default() -> (r: Self)
        ensures
            r.has_default_values(),
    {
        DesktopWidgetsGridState {
            visible: true,
            cell_size: 16,
            major_interval: 4,
        }
    }
}

} // verus!
