//! Battery warning thresholds.

use vstd::prelude::*;

verus! {

/// A per-device low-battery warning threshold, keyed by a device selector.
#[derive(Debug, Clone, PartialEq, Eq)]
pub struct BatteryDeviceWarningThreshold {
    /// Table key in `[battery.device.<selector>]`.
    pub selector: String,
    pub warning_threshold: i32,
}

impl BatteryDeviceWarningThreshold {
    /// Every field holds its default value.
    pub open spec fn has_default_values(&self) -> bool {
        &&& self.selector@.len() == 0
        &&& self.warning_threshold == 10
    }
}

impl Default for BatteryDeviceWarningThreshold {
    fn default() -> (r: Self)
        ensures
            r.has_default_values(),
    {
        BatteryDeviceWarningThreshold {
            selector: String::new(),
            warning_threshold: 10,
        }
    }
}

/// Battery warning configuration.
#[derive(Debug, Clone, PartialEq, Eq)]
pub struct BatteryConfig {
    pub warning_threshold: i32,
    /// Filled from the `[battery.device.<selector>]` tables.
    pub device_thresholds: Vec<BatteryDeviceWarningThreshold>,
}

impl BatteryConfig {
    /// Every field holds its default value.
    pub open spec fn has_default_values(&self) -> bool {
        &&& self.warning_threshold == 10
        &&& self.device_thresholds@.len() == 0
    }
}

impl Default for BatteryConfig {
    fn default() -> (r: Self)
        ensures
            r.has_default_values(),
    {
        BatteryConfig {
            warning_threshold: 10,
            device_thresholds: Vec::new(),
        }
    }
}

} // verus!
