//! Widget setting schema types.

use vstd::prelude::*;

verus! {

/// The data and validation type of a widget setting value.
#[derive(Debug, Clone, Copy, PartialEq, Eq, Structural)]
pub enum WidgetSettingType {
    Bool,
    Int,
    Double,
    OptionalDouble,
    String,
    StringList,
    StringMap,
    Enum,
    Color,
}

} // verus!
