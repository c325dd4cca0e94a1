//! Hot corner configuration.

use vstd::prelude::*;

verus! {

/// The action bound to one screen corner.
#[derive(Debug, Clone, PartialEq, Eq)]
pub struct HotCornerConfig {
    pub action: String,
    pub command: String,
}

impl HotCornerConfig {
    /// Every field holds its default value.
    pub open spec fn has_default_values(&self) -> bool {
        &&& self.action@ == "none"@
        &&& self.command@.len() == 0
    }
}

impl Default for HotCornerConfig {
    fn default() -> (r: Self)
        ensures
            r.has_default_values(),
    {
        HotCornerConfig {
            action: "none".to_owned(),
            command: String::new(),
        }
    }
}

/// Hot corner configuration.
#[derive(Debug, Clone, PartialEq, Eq)]
pub struct HotCornersConfig {
    pub enabled: bool,
    pub delay_ms: i32,
    pub top_left: HotCornerConfig,
    pub top_right: HotCornerConfig,
    pub bottom_left: HotCornerConfig,
    pub bottom_right: HotCornerConfig,
}

impl HotCornersConfig {
    /// Every field holds its default value.
    pub open spec fn has_default_values(&self) -> bool {
        &&& !self.enabled
        &&& self.delay_ms == 0
        &&& self.top_left.has_default_values()
        &&& self.top_right.has_default_values()
        &&& self.bottom_left.has_default_values()
        &&& self.bottom_right.has_default_values()
    }
}

impl Default for HotCornersConfig {
    fn default() -> (r: Self)
        ensures
            r.has_default_values(),
    {
        HotCornersConfig {
            enabled: false,
            delay_ms: 0,
            top_left: HotCornerConfig::default(),
            top_right: HotCornerConfig::default(),
            bottom_left: HotCornerConfig::default(),
            bottom_right: HotCornerConfig::default(),
        }
    }
}

} // verus!
