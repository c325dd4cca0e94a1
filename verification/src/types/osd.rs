//! On-screen display kinds.

use vstd::prelude::*;

verus! {

/// Which events show an on-screen display.
#[derive(Debug, Clone, PartialEq, Eq)]
pub struct OsdKindsConfig {
    pub volume: bool,
    pub volume_output: bool,
    pub volume_input: bool,
    pub brightness: bool,
    pub wifi: bool,
    pub bluetooth: bool,
    pub power_profile: bool,
    pub caffeine: bool,
    pub nightlight: bool,
    pub dnd: bool,
    pub lock_keys: bool,
    pub keyboard_layout: bool,
    pub media: bool,
    pub privacy: bool,
    pub keyboard_backlight: bool,
}

impl OsdKindsConfig {
    /// Every field holds its default value.
    pub open spec fn has_default_values(&self) -> bool {
        &&& self.volume
        &&& self.volume_output
        &&& self.volume_input
        &&& self.brightness
        &&& self.wifi
        &&& self.bluetooth
        &&& self.power_profile
        &&& self.caffeine
        &&& self.nightlight
        &&& self.dnd
        &&& self.lock_keys
        &&& self.keyboard_layout
        &&& self.media
        &&& self.privacy
        &&& self.keyboard_backlight
    }
}

impl Default for OsdKindsConfig {
    fn default() -> (r: Self)
        ensures
            r.has_default_values(),
    {
        OsdKindsConfig {
            volume: true,
            volume_output: true,
            volume_input: true,
            brightness: true,
            wifi: true,
            bluetooth: true,
            power_profile: true,
            caffeine: true,
            nightlight: true,
            dnd: true,
            lock_keys: true,
            keyboard_layout: true,
            media: true,
            privacy: true,
            keyboard_backlight: true,
        }
    }
}

} // verus!
