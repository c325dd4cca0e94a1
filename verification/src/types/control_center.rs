//! Control center configuration.

use vstd::prelude::*;
use crate::types::shell::{ShortcutConfig, default_control_center_shortcuts};

verus! {

/// The control center's calendar tab.
#[derive(Debug, Clone, PartialEq, Eq)]
pub struct CalendarTabConfig {
    pub show_events_card: bool,
    pub show_week_numbers: bool,
    pub event_date_format: String,
    pub event_time_format: String,
}

impl CalendarTabConfig {
    /// Every field holds its default value.
    pub open spec fn has_default_values(&self) -> bool {
        &&& self.show_events_card
        &&& !self.show_week_numbers
        &&& self.event_date_format@ == "%A %e %B"@
        &&& self.event_time_format@ == "%H:%M"@
    }
}

impl Default for CalendarTabConfig {
    fn default() -> (r: Self)
        ensures
            r.has_default_values(),
    {
        CalendarTabConfig {
            show_events_card: true,
            show_week_numbers: false,
            event_date_format: "%A %e %B".to_owned(),
            event_time_format: "%H:%M".to_owned(),
        }
    }
}

/// Control center configuration.
#[derive(Debug, Clone, PartialEq, Eq)]
pub struct ControlCenterConfig {
    /// Filled from the `[[control_center.shortcut]]` array.
    pub shortcuts: Vec<ShortcutConfig>,
    pub hidden_tabs: Vec<String>,
    pub sidebar_mode: String,
    pub sidebar_section_mode: String,
    pub width: i32,
    pub show_shortcut_labels: bool,
    pub calendar_tab: CalendarTabConfig,
}

impl ControlCenterConfig {
    /// Every field holds its default value.
    pub open spec fn has_default_values(&self) -> bool {
        &&& self.hidden_tabs@.len() == 0
        &&& self.sidebar_mode@ == "compact"@
        &&& self.sidebar_section_mode@ == "compact"@
        &&& self.width == 700
        &&& self.show_shortcut_labels
        &&& self.calendar_tab.has_default_values()
        &&& self.shortcuts@.len() == 6
    }
}

impl Default for ControlCenterConfig {
    fn default() -> (r: Self)
        ensures
            r.has_default_values(),
    {
        ControlCenterConfig {
            shortcuts: default_control_center_shortcuts(),
            hidden_tabs: Vec::new(),
            sidebar_mode: "compact".to_owned(),
            sidebar_section_mode: "compact".to_owned(),
            width: 700,
            show_shortcut_labels: true,
            calendar_tab: CalendarTabConfig::default(),
        }
    }
}

} // verus!
