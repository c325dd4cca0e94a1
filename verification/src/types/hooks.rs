//! Shell event hooks: the hook kinds, their configuration keys, and the
//! commands configured for each.

use vstd::prelude::*;
use crate::text::str_equal;

verus! {

/// A shell event that can run configured commands.
#[derive(Debug, Clone, Copy, PartialEq, Eq, Hash, Structural)]
pub enum HookKind {
    /// The user is logging out.
    LoggingOut,
    /// The machine is rebooting.
    Rebooting,
    /// The session was locked.
    SessionLocked,
    /// The session was unlocked.
    SessionUnlocked,
    /// The machine is shutting down.
    ShuttingDown,
    /// The colour palette changed.
    ColorsChanged,
    /// The shell started.
    Started,
    /// Dark or light mode changed.
    ThemeModeChanged,
    /// The wallpaper changed.
    WallpaperChanged,
    /// Bluetooth was switched off.
    BluetoothDisabled,
    /// Bluetooth was switched on.
    BluetoothEnabled,
    /// Wi-Fi was switched off.
    WifiDisabled,
    /// Wi-Fi was switched on.
    WifiEnabled,
    /// The battery started charging.
    BatteryCharging,
    /// The battery started discharging.
    BatteryDischarging,
    /// The battery level changed.
    BatteryPercentageChanged,
    /// The charger was plugged in.
    BatteryPlugged,
    /// The power profile changed.
    PowerProfileChanged,
}

/// The configuration key of each hook kind.
pub open spec fn spec_hook_key(kind: HookKind) -> Seq<char> {
    match kind {
        // session
        HookKind::LoggingOut => "logging_out"@,
        HookKind::Rebooting => "rebooting"@,
        HookKind::SessionLocked => "session_locked"@,
        HookKind::SessionUnlocked => "session_unlocked"@,
        HookKind::ShuttingDown => "shutting_down"@,
        // appearance
        HookKind::ColorsChanged => "colors_changed"@,
        HookKind::Started => "started"@,
        HookKind::ThemeModeChanged => "theme_mode_changed"@,
        HookKind::WallpaperChanged => "wallpaper_changed"@,
        // connectivity
        HookKind::BluetoothDisabled => "bluetooth_disabled"@,
        HookKind::BluetoothEnabled => "bluetooth_enabled"@,
        HookKind::WifiDisabled => "wifi_disabled"@,
        HookKind::WifiEnabled => "wifi_enabled"@,
        // power
        HookKind::BatteryCharging => "battery_charging"@,
        HookKind::BatteryDischarging => "battery_discharging"@,
        HookKind::BatteryPercentageChanged => "battery_percentage_changed"@,
        HookKind::BatteryPlugged => "battery_plugged"@,
        HookKind::PowerProfileChanged => "power_profile_changed"@,
    }
}

/// The hook kind whose key is `key`, if any.
pub open spec fn spec_hook_kind_from_key(key: Seq<char>) -> Option<HookKind> {
    if key == "logging_out"@ { Some(HookKind::LoggingOut) }
    else if key == "rebooting"@ { Some(HookKind::Rebooting) }
    else if key == "session_locked"@ { Some(HookKind::SessionLocked) }
    else if key == "session_unlocked"@ { Some(HookKind::SessionUnlocked) }
    else if key == "shutting_down"@ { Some(HookKind::ShuttingDown) }
    else if key == "colors_changed"@ { Some(HookKind::ColorsChanged) }
    else if key == "started"@ { Some(HookKind::Started) }
    else if key == "theme_mode_changed"@ { Some(HookKind::ThemeModeChanged) }
    else if key == "wallpaper_changed"@ { Some(HookKind::WallpaperChanged) }
    else if key == "bluetooth_disabled"@ { Some(HookKind::BluetoothDisabled) }
    else if key == "bluetooth_enabled"@ { Some(HookKind::BluetoothEnabled) }
    else if key == "wifi_disabled"@ { Some(HookKind::WifiDisabled) }
    else if key == "wifi_enabled"@ { Some(HookKind::WifiEnabled) }
    else if key == "battery_charging"@ { Some(HookKind::BatteryCharging) }
    else if key == "battery_discharging"@ { Some(HookKind::BatteryDischarging) }
    else if key == "battery_percentage_changed"@ { Some(HookKind::BatteryPercentageChanged) }
    else if key == "battery_plugged"@ { Some(HookKind::BatteryPlugged) }
    else if key == "power_profile_changed"@ { Some(HookKind::PowerProfileChanged) }
    else { None }
}

impl HookKind {
    /// The number of hook kinds.
    pub const COUNT: usize = 18;

    /// The configuration key of this hook kind.
    pub fn key(self) -> (r: &'static str)
        ensures
            r@ == spec_hook_key(self),
    {
        match self {
            // session
            HookKind::LoggingOut => "logging_out",
            HookKind::Rebooting => "rebooting",
            HookKind::SessionLocked => "session_locked",
            HookKind::SessionUnlocked => "session_unlocked",
            HookKind::ShuttingDown => "shutting_down",
            // appearance
            HookKind::ColorsChanged => "colors_changed",
            HookKind::Started => "started",
            HookKind::ThemeModeChanged => "theme_mode_changed",
            HookKind::WallpaperChanged => "wallpaper_changed",
            // connectivity
            HookKind::BluetoothDisabled => "bluetooth_disabled",
            HookKind::BluetoothEnabled => "bluetooth_enabled",
            HookKind::WifiDisabled => "wifi_disabled",
            HookKind::WifiEnabled => "wifi_enabled",
            // power
            HookKind::BatteryCharging => "battery_charging",
            HookKind::BatteryDischarging => "battery_discharging",
            HookKind::BatteryPercentageChanged => "battery_percentage_changed",
            HookKind::BatteryPlugged => "battery_plugged",
            HookKind::PowerProfileChanged => "power_profile_changed",
        }
    }

    /// The hook kind whose configuration key is `key`.
    pub fn from_key(key: &str) -> (r: Option<HookKind>)
        ensures
            r == spec_hook_kind_from_key(key@),
    {
        if str_equal(key, "logging_out") { Some(HookKind::LoggingOut) }
        else if str_equal(key, "rebooting") { Some(HookKind::Rebooting) }
        else if str_equal(key, "session_locked") { Some(HookKind::SessionLocked) }
        else if str_equal(key, "session_unlocked") { Some(HookKind::SessionUnlocked) }
        else if str_equal(key, "shutting_down") { Some(HookKind::ShuttingDown) }
        else if str_equal(key, "colors_changed") { Some(HookKind::ColorsChanged) }
        else if str_equal(key, "started") { Some(HookKind::Started) }
        else if str_equal(key, "theme_mode_changed") { Some(HookKind::ThemeModeChanged) }
        else if str_equal(key, "wallpaper_changed") { Some(HookKind::WallpaperChanged) }
        else if str_equal(key, "bluetooth_disabled") { Some(HookKind::BluetoothDisabled) }
        else if str_equal(key, "bluetooth_enabled") { Some(HookKind::BluetoothEnabled) }
        else if str_equal(key, "wifi_disabled") { Some(HookKind::WifiDisabled) }
        else if str_equal(key, "wifi_enabled") { Some(HookKind::WifiEnabled) }
        else if str_equal(key, "battery_charging") { Some(HookKind::BatteryCharging) }
        else if str_equal(key, "battery_discharging") { Some(HookKind::BatteryDischarging) }
        else if str_equal(key, "battery_percentage_changed") { Some(HookKind::BatteryPercentageChanged) }
        else if str_equal(key, "battery_plugged") { Some(HookKind::BatteryPlugged) }
        else if str_equal(key, "power_profile_changed") { Some(HookKind::PowerProfileChanged) }
        else { None }
    }
}

/// The hook kind whose configuration key is `key`.
pub fn hook_kind_from_key(key: &str) -> (r: Option<HookKind>)
    ensures
        r == spec_hook_kind_from_key(key@),
{
    HookKind::from_key(key)
}

/// The configuration key of `kind`.
pub fn hook_kind_key(kind: HookKind) -> (r: &'static str)
    ensures
        r@ == spec_hook_key(kind),
{
    kind.key()
}

/// Every hook kind's key reads back as that kind: the key mapping is a
/// bijection between the kinds and their keys.
pub proof fn lemma_hook_key_round_trip(kind: HookKind)
    ensures
        spec_hook_kind_from_key(spec_hook_key(kind)) == Some(kind),
{
    reveal_strlit("logging_out");
    reveal_strlit("rebooting");
    reveal_strlit("session_locked");
    reveal_strlit("session_unlocked");
    reveal_strlit("shutting_down");
    reveal_strlit("colors_changed");
    reveal_strlit("started");
    reveal_strlit("theme_mode_changed");
    reveal_strlit("wallpaper_changed");
    reveal_strlit("bluetooth_disabled");
    reveal_strlit("bluetooth_enabled");
    reveal_strlit("wifi_disabled");
    reveal_strlit("wifi_enabled");
    reveal_strlit("battery_charging");
    reveal_strlit("battery_discharging");
    reveal_strlit("battery_percentage_changed");
    reveal_strlit("battery_plugged");
    reveal_strlit("power_profile_changed");
    assert("logging_out"@.len() == 11);
    assert("rebooting"@.len() == 9);
    assert("session_locked"@.len() == 14);
    assert("session_unlocked"@.len() == 16);
    assert("shutting_down"@.len() == 13);
    assert("colors_changed"@.len() == 14);
    assert("started"@.len() == 7);
    assert("theme_mode_changed"@.len() == 18);
    assert("wallpaper_changed"@.len() == 17);
    assert("bluetooth_disabled"@.len() == 18);
    assert("bluetooth_enabled"@.len() == 17);
    assert("wifi_disabled"@.len() == 13);
    assert("wifi_enabled"@.len() == 12);
    assert("battery_charging"@.len() == 16);
    assert("battery_discharging"@.len() == 19);
    assert("battery_percentage_changed"@.len() == 26);
    assert("battery_plugged"@.len() == 15);
    assert("power_profile_changed"@.len() == 21);
    assert("colors_changed"@[0] != "session_locked"@[0]);
    assert("bluetooth_disabled"@[0] != "theme_mode_changed"@[0]);
    assert("bluetooth_enabled"@[0] != "wallpaper_changed"@[0]);
    assert("wifi_disabled"@[0] != "shutting_down"@[0]);
    assert("battery_charging"@[0] != "session_unlocked"@[0]);
    match kind {
        HookKind::LoggingOut => {},
        HookKind::Rebooting => {},
        HookKind::SessionLocked => {},
        HookKind::SessionUnlocked => {},
        HookKind::ShuttingDown => {},
        HookKind::ColorsChanged => {},
        HookKind::Started => {},
        HookKind::ThemeModeChanged => {},
        HookKind::WallpaperChanged => {},
        HookKind::BluetoothDisabled => {},
        HookKind::BluetoothEnabled => {},
        HookKind::WifiDisabled => {},
        HookKind::WifiEnabled => {},
        HookKind::BatteryCharging => {},
        HookKind::BatteryDischarging => {},
        HookKind::BatteryPercentageChanged => {},
        HookKind::BatteryPlugged => {},
        HookKind::PowerProfileChanged => {},
    }
}

/// The commands of one hook, run in order.
pub type HookCommands = Vec<String>;

/// Commands configured for each shell event.
#[derive(Debug, Clone, PartialEq, Eq)]
pub struct HooksConfig {
    /// Commands run as the user logs out.
    pub logging_out: HookCommands,
    /// Commands run before a reboot.
    pub rebooting: HookCommands,
    /// Commands run when the session locks.
    pub session_locked: HookCommands,
    /// Commands run when the session unlocks.
    pub session_unlocked: HookCommands,
    /// Commands run before a shutdown.
    pub shutting_down: HookCommands,
    /// Commands run when the palette changes.
    pub colors_changed: HookCommands,
    /// Commands run once the shell is up.
    pub started: HookCommands,
    /// Commands run when dark or light mode changes.
    pub theme_mode_changed: HookCommands,
    /// Commands run when the wallpaper changes.
    pub wallpaper_changed: HookCommands,
    /// Commands run when Bluetooth goes off.
    pub bluetooth_disabled: HookCommands,
    /// Commands run when Bluetooth comes on.
    pub bluetooth_enabled: HookCommands,
    /// Commands run when Wi-Fi goes off.
    pub wifi_disabled: HookCommands,
    /// Commands run when Wi-Fi comes on.
    pub wifi_enabled: HookCommands,
    /// Commands run when charging starts.
    pub battery_charging: HookCommands,
    /// Commands run when discharging starts.
    pub battery_discharging: HookCommands,
    /// Commands run when the battery level changes.
    pub battery_percentage_changed: HookCommands,
    /// Commands run when a charger is plugged in.
    pub battery_plugged: HookCommands,
    /// Commands run when the power profile changes.
    pub power_profile_changed: HookCommands,
}

/// The command list configured for `kind`.
pub open spec fn spec_commands(c: HooksConfig, kind: HookKind) -> Vec<String> {
    match kind {
        // session
        HookKind::LoggingOut => c.logging_out,
        HookKind::Rebooting => c.rebooting,
        HookKind::SessionLocked => c.session_locked,
        HookKind::SessionUnlocked => c.session_unlocked,
        HookKind::ShuttingDown => c.shutting_down,
        // appearance
        HookKind::ColorsChanged => c.colors_changed,
        HookKind::Started => c.started,
        HookKind::ThemeModeChanged => c.theme_mode_changed,
        HookKind::WallpaperChanged => c.wallpaper_changed,
        // connectivity
        HookKind::BluetoothDisabled => c.bluetooth_disabled,
        HookKind::BluetoothEnabled => c.bluetooth_enabled,
        HookKind::WifiDisabled => c.wifi_disabled,
        HookKind::WifiEnabled => c.wifi_enabled,
        // power
        HookKind::BatteryCharging => c.battery_charging,
        HookKind::BatteryDischarging => c.battery_discharging,
        HookKind::BatteryPercentageChanged => c.battery_percentage_changed,
        HookKind::BatteryPlugged => c.battery_plugged,
        HookKind::PowerProfileChanged => c.power_profile_changed,
    }
}

impl HooksConfig {
    /// The commands configured for `kind`.
    pub fn commands(&self, kind: HookKind) -> (r: &[String])
        ensures
            r@ == spec_commands(*self, kind)@,
    {
        match kind {
            // session
            HookKind::LoggingOut => self.logging_out.as_slice(),
            HookKind::Rebooting => self.rebooting.as_slice(),
            HookKind::SessionLocked => self.session_locked.as_slice(),
            HookKind::SessionUnlocked => self.session_unlocked.as_slice(),
            HookKind::ShuttingDown => self.shutting_down.as_slice(),
            // appearance
            HookKind::ColorsChanged => self.colors_changed.as_slice(),
            HookKind::Started => self.started.as_slice(),
            HookKind::ThemeModeChanged => self.theme_mode_changed.as_slice(),
            HookKind::WallpaperChanged => self.wallpaper_changed.as_slice(),
            // connectivity
            HookKind::BluetoothDisabled => self.bluetooth_disabled.as_slice(),
            HookKind::BluetoothEnabled => self.bluetooth_enabled.as_slice(),
            HookKind::WifiDisabled => self.wifi_disabled.as_slice(),
            HookKind::WifiEnabled => self.wifi_enabled.as_slice(),
            // power
            HookKind::BatteryCharging => self.battery_charging.as_slice(),
            HookKind::BatteryDischarging => self.battery_discharging.as_slice(),
            HookKind::BatteryPercentageChanged => self.battery_percentage_changed.as_slice(),
            HookKind::BatteryPlugged => self.battery_plugged.as_slice(),
            HookKind::PowerProfileChanged => self.power_profile_changed.as_slice(),
        }
    }
}

impl Default for HooksConfig {
    /// No commands for any event.
    fn default() -> (r: HooksConfig)
        ensures
            forall|kind: HookKind| (#[trigger] spec_commands(r, kind))@.len() == 0,
    {
        HooksConfig {
            logging_out: Vec::new(),
            rebooting: Vec::new(),
            session_locked: Vec::new(),
            session_unlocked: Vec::new(),
            shutting_down: Vec::new(),
            colors_changed: Vec::new(),
            started: Vec::new(),
            theme_mode_changed: Vec::new(),
            wallpaper_changed: Vec::new(),
            bluetooth_disabled: Vec::new(),
            bluetooth_enabled: Vec::new(),
            wifi_disabled: Vec::new(),
            wifi_enabled: Vec::new(),
            battery_charging: Vec::new(),
            battery_discharging: Vec::new(),
            battery_percentage_changed: Vec::new(),
            battery_plugged: Vec::new(),
            power_profile_changed: Vec::new(),
        }
    }
}

} // verus!
