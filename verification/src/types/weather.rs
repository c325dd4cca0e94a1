//! Weather widget configuration.

use vstd::prelude::*;

verus! {

/// Weather configuration.
#[derive(Debug, Clone, PartialEq, Eq)]
pub struct WeatherConfig {
    pub enabled: bool,
    pub effects: bool,
    pub refresh_minutes: i32,
    pub unit: String,
}

impl WeatherConfig {
    /// Every field holds its default value.
    pub open spec fn has_default_values(&self) -> bool {
        &&& self.enabled
        &&& self.effects
        &&& self.refresh_minutes == 30
        &&& self.unit@ == "metric"@
    }
}

impl Default for WeatherConfig {
    fn default() -> (r: Self)
        ensures
            r.has_default_values(),
    {
        WeatherConfig {
            enabled: true,
            effects: true,
            refresh_minutes: 30,
            unit: "metric".to_owned(),
        }
    }
}

} // verus!
