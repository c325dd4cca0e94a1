//! Night light configuration.

use vstd::prelude::*;

verus! {

/// Night light configuration.
#[derive(Debug, Clone, PartialEq, Eq)]
pub struct NightLightConfig {
    pub enabled: bool,
    pub force: bool,
    pub day_temperature: i32,
    pub night_temperature: i32,
}

impl NightLightConfig {
    /// Every field holds its default value.
    pub open spec fn has_default_values(&self) -> bool {
        &&& !self.enabled
        &&& !self.force
        &&& self.day_temperature == 6500
        &&& self.night_temperature == 4000
    }
}

impl Default for NightLightConfig {
    fn default() -> (r: Self)
        ensures
            r.has_default_values(),
    {
        NightLightConfig {
            enabled: false,
            force: false,
            day_temperature: 6500,
            night_temperature: 4000,
        }
    }
}

impl NightLightConfig {
    /// Lowest colour temperature accepted, in kelvin.
    pub const TEMPERATURE_MIN: i32 = 1000;
    /// Highest colour temperature accepted, in kelvin.
    pub const TEMPERATURE_MAX: i32 = 10000;
    /// Smallest gap kept between the day and night temperatures.
    pub const TEMPERATURE_GAP: i32 = 100;
}

} // verus!
