//! The set of sections that changed between two configuration loads.

use vstd::prelude::*;

verus! {

/// Which configuration sections changed between two loads.
#[derive(Debug, Clone, Copy, PartialEq, Eq, Structural)]
pub struct ConfigChangeSet {
    pub bars: bool,
    pub widgets: bool,
    pub desktop_widgets: bool,
    pub lockscreen_widgets: bool,
    pub wallpaper: bool,
    pub backdrop: bool,
    pub lockscreen: bool,
    pub dock: bool,
    pub shell: bool,
    pub osd: bool,
    pub notification: bool,
    pub weather: bool,
    pub calendar: bool,
    pub system: bool,
    pub audio: bool,
    pub brightness: bool,
    pub battery: bool,
    pub keybinds: bool,
    pub nightlight: bool,
    pub location: bool,
    pub idle: bool,
    pub hooks: bool,
    pub theme: bool,
    pub control_center: bool,
    pub plugins: bool,
    pub hot_corners: bool,
    pub storage: bool,
    pub accessibility: bool,
}

impl ConfigChangeSet {
    /// At least one section changed.
    pub open spec fn spec_any(self) -> bool {
        ||| self.bars
        ||| self.widgets
        ||| self.desktop_widgets
        ||| self.lockscreen_widgets
        ||| self.wallpaper
        ||| self.backdrop
        ||| self.lockscreen
        ||| self.dock
        ||| self.shell
        ||| self.osd
        ||| self.notification
        ||| self.weather
        ||| self.calendar
        ||| self.system
        ||| self.audio
        ||| self.brightness
        ||| self.battery
        ||| self.keybinds
        ||| self.nightlight
        ||| self.location
        ||| self.idle
        ||| self.hooks
        ||| self.theme
        ||| self.control_center
        ||| self.plugins
        ||| self.hot_corners
        ||| self.storage
        ||| self.accessibility
    }

    /// Whether any section changed.
    pub fn any(self) -> (r: bool)
        ensures
            r == self.spec_any(),
    {
        self.bars
            || self.widgets
            || self.desktop_widgets
            || self.lockscreen_widgets
            || self.wallpaper
            || self.backdrop
            || self.lockscreen
            || self.dock
            || self.shell
            || self.osd
            || self.notification
            || self.weather
            || self.calendar
            || self.system
            || self.audio
            || self.brightness
            || self.battery
            || self.keybinds
            || self.nightlight
            || self.location
            || self.idle
            || self.hooks
            || self.theme
            || self.control_center
            || self.plugins
            || self.hot_corners
            || self.storage
            || self.accessibility
    }
}

impl Default for ConfigChangeSet {
    /// Every section marked as changed: what a first load reports.
    fn default() -> (r: Self)
        ensures
            r.bars,
            r.widgets,
            r.desktop_widgets,
            r.lockscreen_widgets,
            r.wallpaper,
            r.backdrop,
            r.lockscreen,
            r.dock,
            r.shell,
            r.osd,
            r.notification,
            r.weather,
            r.calendar,
            r.system,
            r.audio,
            r.brightness,
            r.battery,
            r.keybinds,
            r.nightlight,
            r.location,
            r.idle,
            r.hooks,
            r.theme,
            r.control_center,
            r.plugins,
            r.hot_corners,
            r.storage,
            r.accessibility,
    {
        ConfigChangeSet {
            bars: true,
            widgets: true,
            desktop_widgets: true,
            lockscreen_widgets: true,
            wallpaper: true,
            backdrop: true,
            lockscreen: true,
            dock: true,
            shell: true,
            osd: true,
            notification: true,
            weather: true,
            calendar: true,
            system: true,
            audio: true,
            brightness: true,
            battery: true,
            keybinds: true,
            nightlight: true,
            location: true,
            idle: true,
            hooks: true,
            theme: true,
            control_center: true,
            plugins: true,
            hot_corners: true,
            storage: true,
            accessibility: true,
        }
    }
}

} // verus!
