//! Brightness backend overrides.

use vstd::prelude::*;

verus! {

/// Which backend controls a monitor's brightness (`none` in the config file is `Disabled`).
#[derive(Debug, Clone, Copy, PartialEq, Eq, Hash, Structural)]
pub enum BrightnessBackendPreference {
    Auto,
    /// No backend: brightness is not controlled.
    Disabled,
    Backlight,
    Ddcutil,
}

impl BrightnessBackendPreference {
    /// The variant a missing setting takes.
    pub open spec fn spec_default() -> BrightnessBackendPreference {
        BrightnessBackendPreference::Auto
    }
}

impl Default for BrightnessBackendPreference {
    fn default() -> (r: Self)
        ensures
            r == BrightnessBackendPreference::Auto,
    {
        BrightnessBackendPreference::Auto
    }
}

/// Brightness settings for the monitors a selector matches.
#[derive(Debug, Clone, PartialEq, Eq)]
pub struct BrightnessMonitorOverride {
    pub match_: String,
    pub backend: Option<BrightnessBackendPreference>,
    pub backlight_device: Option<String>,
}

impl BrightnessMonitorOverride {
    /// Every field holds its default value.
    pub open spec fn has_default_values(&self) -> bool {
        &&& self.match_@.len() == 0
        &&& self.backend is None
        &&& self.backlight_device is None
    }
}

impl Default for BrightnessMonitorOverride {
    fn default() -> (r: Self)
        ensures
            r.has_default_values(),
    {
        BrightnessMonitorOverride {
            match_: String::new(),
            backend: None,
            backlight_device: None,
        }
    }
}

} // verus!
