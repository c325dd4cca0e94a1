//! Shell-wide settings: panels, launcher, screenshots, session and shortcuts.

use vstd::prelude::*;
use crate::types::keybinds::KeyChord;

verus! {

/// A control center shortcut tile.
#[derive(Debug, Clone, PartialEq, Eq)]
pub struct ShortcutConfig {
    pub type_: String,
}

impl ShortcutConfig {
    /// Every field holds its default value.
    pub open spec fn has_default_values(&self) -> bool {
        &&& self.type_@.len() == 0
    }
}

impl Default for ShortcutConfig {
    fn default() -> (r: Self)
        ensures
            r.has_default_values(),
    {
        ShortcutConfig {
            type_: String::new(),
        }
    }
}

/// The control center's default shortcut tiles, in display order.
pub fn default_control_center_shortcuts() -> (r: Vec<ShortcutConfig>)
    ensures
        r@.len() == 6,
        r@[0].type_@ == "wifi"@,
        r@[1].type_@ == "bluetooth"@,
        r@[2].type_@ == "caffeine"@,
        r@[3].type_@ == "nightlight"@,
        r@[4].type_@ == "notification"@,
        r@[5].type_@ == "power_profile"@,
{
    let mut r: Vec<ShortcutConfig> = Vec::new();
    r.push(ShortcutConfig { type_: "wifi".to_owned() });
    r.push(ShortcutConfig { type_: "bluetooth".to_owned() });
    r.push(ShortcutConfig { type_: "caffeine".to_owned() });
    r.push(ShortcutConfig { type_: "nightlight".to_owned() });
    r.push(ShortcutConfig { type_: "notification".to_owned() });
    r.push(ShortcutConfig { type_: "power_profile".to_owned() });
    r
}

/// Commands that replace the built-in session power actions.
#[derive(Debug, Clone, PartialEq, Eq)]
pub struct ShellSessionPowerConfig {
    pub suspend: Option<String>,
    pub reboot: Option<String>,
    pub shutdown: Option<String>,
}

impl ShellSessionPowerConfig {
    /// Every field holds its default value.
    pub open spec fn has_default_values(&self) -> bool {
        &&& self.suspend is None
        &&& self.reboot is None
        &&& self.shutdown is None
    }
}

impl Default for ShellSessionPowerConfig {
    fn default() -> (r: Self)
        ensures
            r.has_default_values(),
    {
        ShellSessionPowerConfig {
            suspend: None,
            reboot: None,
            shutdown: None,
        }
    }
}

/// Syncing the shell's look to the login greeter.
#[derive(Debug, Clone, PartialEq, Eq)]
pub struct ShellGreeterSyncConfig {
    pub privilege_command: String,
    pub auto_sync: bool,
}

impl ShellGreeterSyncConfig {
    /// Every field holds its default value.
    pub open spec fn has_default_values(&self) -> bool {
        &&& self.privilege_command@.len() == 0
        &&& !self.auto_sync
    }
}

impl Default for ShellGreeterSyncConfig {
    fn default() -> (r: Self)
        ensures
            r.has_default_values(),
    {
        ShellGreeterSyncConfig {
            privilege_command: String::new(),
            auto_sync: false,
        }
    }
}

/// One dmenu-style launcher entry.
#[derive(Debug, Clone, PartialEq, Eq)]
pub struct DmenuEntryConfig {
    /// Table key in `[shell.launcher.dmenu.entry.<id>]`.
    pub id: String,
    pub command: String,
    pub exec_: Option<String>,
    pub prefix: Option<String>,
    pub label: Option<String>,
    pub glyph: Option<String>,
    pub global: bool,
    pub freeform: bool,
}

impl DmenuEntryConfig {
    /// Every field holds its default value.
    pub open spec fn has_default_values(&self) -> bool {
        &&& self.id@.len() == 0
        &&& self.command@.len() == 0
        &&& self.exec_ is None
        &&& self.prefix is None
        &&& self.label is None
        &&& self.glyph is None
        &&& !self.global
        &&& !self.freeform
    }
}

impl Default for DmenuEntryConfig {
    fn default() -> (r: Self)
        ensures
            r.has_default_values(),
    {
        DmenuEntryConfig {
            id: String::new(),
            command: String::new(),
            exec_: None,
            prefix: None,
            label: None,
            glyph: None,
            global: false,
            freeform: false,
        }
    }
}

/// Launcher provider settings.
#[derive(Debug, Clone, PartialEq, Eq)]
pub struct LauncherProviderConfig {
    /// Table key in `[shell.launcher.providers.<name>]`.
    pub name: String,
    pub prefix: String,
    pub global: Option<bool>,
}

impl LauncherProviderConfig {
    /// Every field holds its default value.
    pub open spec fn has_default_values(&self) -> bool {
        &&& self.name@.len() == 0
        &&& self.prefix@.len() == 0
        &&& self.global is None
    }
}

impl Default for LauncherProviderConfig {
    fn default() -> (r: Self)
        ensures
            r.has_default_values(),
    {
        LauncherProviderConfig {
            name: String::new(),
            prefix: String::new(),
            global: None,
        }
    }
}

/// Panel placement and look.
#[derive(Debug, Clone, PartialEq, Eq)]
pub struct PanelConfig {
    pub transparency_mode: String,
    pub borders: bool,
    pub shadow: bool,
    pub list_item_background: bool,
    pub launcher_placement: String,
    pub clipboard_placement: String,
    pub control_center_placement: String,
    pub wallpaper_placement: String,
    pub session_placement: String,
    pub polkit_placement: String,
    pub launcher_position: String,
    pub clipboard_position: String,
    pub control_center_position: String,
    pub wallpaper_position: String,
    pub session_position: String,
    pub polkit_position: String,
    pub floating_offset: i32,
    pub open_near_click_control_center: bool,
    pub open_near_click_launcher: bool,
    pub open_near_click_clipboard: bool,
    pub open_near_click_wallpaper: bool,
    pub open_near_click_session: bool,
}

impl PanelConfig {
    /// Every field holds its default value.
    pub open spec fn has_default_values(&self) -> bool {
        &&& self.transparency_mode@ == "solid"@
        &&& self.borders
        &&& self.shadow
        &&& !self.list_item_background
        &&& self.launcher_placement@ == "floating"@
        &&& self.clipboard_placement@ == "floating"@
        &&& self.control_center_placement@ == "attached"@
        &&& self.wallpaper_placement@ == "attached"@
        &&& self.session_placement@ == "attached"@
        &&& self.polkit_placement@ == "floating"@
        &&& self.launcher_position@ == "center"@
        &&& self.clipboard_position@ == "center"@
        &&& self.control_center_position@ == "auto"@
        &&& self.wallpaper_position@ == "auto"@
        &&& self.session_position@ == "auto"@
        &&& self.polkit_position@ == "center"@
        &&& self.floating_offset == 8
        &&& !self.open_near_click_control_center
        &&& !self.open_near_click_launcher
        &&& !self.open_near_click_clipboard
        &&& !self.open_near_click_wallpaper
        &&& !self.open_near_click_session
    }
}

impl Default for PanelConfig {
    fn default() -> (r: Self)
        ensures
            r.has_default_values(),
    {
        PanelConfig {
            transparency_mode: "solid".to_owned(),
            borders: true,
            shadow: true,
            list_item_background: false,
            launcher_placement: "floating".to_owned(),
            clipboard_placement: "floating".to_owned(),
            control_center_placement: "attached".to_owned(),
            wallpaper_placement: "attached".to_owned(),
            session_placement: "attached".to_owned(),
            polkit_placement: "floating".to_owned(),
            launcher_position: "center".to_owned(),
            clipboard_position: "center".to_owned(),
            control_center_position: "auto".to_owned(),
            wallpaper_position: "auto".to_owned(),
            session_position: "auto".to_owned(),
            polkit_position: "center".to_owned(),
            floating_offset: 8,
            open_near_click_control_center: false,
            open_near_click_launcher: false,
            open_near_click_clipboard: false,
            open_near_click_wallpaper: false,
            open_near_click_session: false,
        }
    }
}

/// The launcher's dmenu entries.
#[derive(Debug, Clone, PartialEq, Eq)]
pub struct DmenuConfig {
    /// Filled from the `[shell.launcher.dmenu.entry.<id>]` tables.
    pub entries: Vec<DmenuEntryConfig>,
}

impl DmenuConfig {
    /// Every field holds its default value.
    pub open spec fn has_default_values(&self) -> bool {
        &&& self.entries@.len() == 0
    }
}

impl Default for DmenuConfig {
    fn default() -> (r: Self)
        ensures
            r.has_default_values(),
    {
        DmenuConfig {
            entries: Vec::new(),
        }
    }
}

/// Application launcher settings.
#[derive(Debug, Clone, PartialEq, Eq)]
pub struct LauncherConfig {
    pub categories: bool,
    pub show_icons: bool,
    pub compact: bool,
    pub app_grid: bool,
    pub sort_by_usage: bool,
    pub fetch_exchange_rates: bool,
    pub provider_prefix: String,
    pub auto_paste: String,
    pub dmenu: DmenuConfig,
    /// Filled from the `[shell.launcher.providers.<name>]` tables.
    pub providers: Vec<LauncherProviderConfig>,
}

impl LauncherConfig {
    /// Every field holds its default value.
    pub open spec fn has_default_values(&self) -> bool {
        &&& self.categories
        &&& self.show_icons
        &&& !self.compact
        &&& !self.app_grid
        &&& self.sort_by_usage
        &&& self.fetch_exchange_rates
        &&& self.provider_prefix@ == "/"@
        &&& self.auto_paste@ == "auto"@
        &&& self.dmenu.has_default_values()
        &&& self.providers@.len() == 0
    }
}

impl Default for LauncherConfig {
    fn default() -> (r: Self)
        ensures
            r.has_default_values(),
    {
        LauncherConfig {
            categories: true,
            show_icons: true,
            compact: false,
            app_grid: false,
            sort_by_usage: true,
            fetch_exchange_rates: true,
            provider_prefix: "/".to_owned(),
            auto_paste: "auto".to_owned(),
            dmenu: DmenuConfig::default(),
            providers: Vec::new(),
        }
    }
}

/// Rounded screen corners.
#[derive(Debug, Clone, PartialEq, Eq)]
pub struct ScreenCornersConfig {
    pub enabled: bool,
    pub size: i32,
}

impl ScreenCornersConfig {
    /// Every field holds its default value.
    pub open spec fn has_default_values(&self) -> bool {
        &&& !self.enabled
        &&& self.size == 32
    }
}

impl Default for ScreenCornersConfig {
    fn default() -> (r: Self)
        ensures
            r.has_default_values(),
    {
        ScreenCornersConfig {
            enabled: false,
            size: 32,
        }
    }
}

/// Media player integration.
#[derive(Debug, Clone, PartialEq, Eq)]
pub struct MprisConfig {
    pub blacklist: Vec<String>,
}

impl MprisConfig {
    /// Every field holds its default value.
    pub open spec fn has_default_values(&self) -> bool {
        &&& self.blacklist@.len() == 0
    }
}

impl Default for MprisConfig {
    fn default() -> (r: Self)
        ensures
            r.has_default_values(),
    {
        MprisConfig {
            blacklist: Vec::new(),
        }
    }
}

/// Screenshot behaviour.
#[derive(Debug, Clone, PartialEq, Eq)]
pub struct ScreenshotConfig {
    pub save_to_file: bool,
    pub copy_to_clipboard: bool,
    pub freeze_screen: bool,
    pub confirm_region: bool,
    pub show_cursor: bool,
    pub pipe_to_command: bool,
    pub pipe_command: String,
    pub directory: String,
    pub filename_pattern: String,
}

impl ScreenshotConfig {
    /// Every field holds its default value.
    pub open spec fn has_default_values(&self) -> bool {
        &&& self.save_to_file
        &&& self.copy_to_clipboard
        &&& self.freeze_screen
        &&& !self.confirm_region
        &&& !self.show_cursor
        &&& !self.pipe_to_command
        &&& self.pipe_command@.len() == 0
        &&& self.directory@.len() == 0
        &&& self.filename_pattern@.len() == 0
    }
}

impl Default for ScreenshotConfig {
    fn default() -> (r: Self)
        ensures
            r.has_default_values(),
    {
        ScreenshotConfig {
            save_to_file: true,
            copy_to_clipboard: true,
            freeze_screen: true,
            confirm_region: false,
            show_cursor: false,
            pipe_to_command: false,
            pipe_command: String::new(),
            directory: String::new(),
            filename_pattern: String::new(),
        }
    }
}

/// Which capture clients the privacy indicator ignores.
#[derive(Debug, Clone, PartialEq, Eq)]
pub struct PrivacyConfig {
    pub mic_filter_regex: String,
    pub cam_filter_regex: String,
    pub screen_filter_regex: String,
}

impl PrivacyConfig {
    /// Every field holds its default value.
    pub open spec fn has_default_values(&self) -> bool {
        &&& self.mic_filter_regex@.len() == 0
        &&& self.cam_filter_regex@.len() == 0
        &&& self.screen_filter_regex@.len() == 0
    }
}

impl Default for PrivacyConfig {
    fn default() -> (r: Self)
        ensures
            r.has_default_values(),
    {
        PrivacyConfig {
            mic_filter_regex: String::new(),
            cam_filter_regex: String::new(),
            screen_filter_regex: String::new(),
        }
    }
}

/// One action of the session panel. `countdown_seconds` holds the bits of a
/// double-precision number.
pub struct SessionPanelActionConfig {
    pub action: String,
    pub enabled: bool,
    pub command: Option<String>,
    pub label: Option<String>,
    pub glyph: Option<String>,
    /// One of `default`, `primary`, `secondary`, `destructive`, `outline`, `ghost`.
    pub variant: String,
    pub shortcut: Option<KeyChord>,
    pub countdown_seconds: u64,
}

/// The parts of a session action that the defaults fix.
pub open spec fn session_action_is(a: SessionPanelActionConfig, action: Seq<char>, variant: Seq<char>, sym: u32) -> bool {
    &&& a.action@ == action
    &&& a.variant@ == variant
    &&& a.shortcut == Some(KeyChord { sym, modifiers: 0 })
    &&& a.enabled
    &&& a.command is None && a.label is None && a.glyph is None
    &&& a.countdown_seconds == 0
}

impl Default for SessionPanelActionConfig {
    /// An enabled action with no name, command, label, glyph or shortcut, in the default variant.
    fn default() -> (r: Self)
        ensures
            r.action@.len() == 0,
            r.enabled,
            r.command is None && r.label is None && r.glyph is None,
            r.variant@ == "default"@,
            r.shortcut is None,
            r.countdown_seconds == 0,
    {
        SessionPanelActionConfig {
            action: String::new(),
            enabled: true,
            command: None,
            label: None,
            glyph: None,
            variant: "default".to_owned(),
            shortcut: None,
            countdown_seconds: 0,
        }
    }
}

fn session_action(action: &str, variant: &str, sym: u32) -> (r: SessionPanelActionConfig)
    ensures
        session_action_is(r, action@, variant@, sym),
{
    SessionPanelActionConfig {
        action: action.to_owned(),
        enabled: true,
        command: None,
        label: None,
        glyph: None,
        variant: variant.to_owned(),
        shortcut: Some(KeyChord { sym, modifiers: 0 }),
        countdown_seconds: 0,
    }
}

/// The session panel's actions before any are configured: lock, log out,
/// lock and suspend, reboot and shut down (the last destructive), on the
/// keys `1` to `5`.
pub fn default_session_panel_actions() -> (r: Vec<SessionPanelActionConfig>)
    ensures
        r@.len() == 5,
        session_action_is(r@[0], "lock"@, "default"@, 0x31),
        session_action_is(r@[1], "logout"@, "default"@, 0x32),
        session_action_is(r@[2], "lock_and_suspend"@, "default"@, 0x33),
        session_action_is(r@[3], "reboot"@, "default"@, 0x34),
        session_action_is(r@[4], "shutdown"@, "destructive"@, 0x35),
{
    let mut r: Vec<SessionPanelActionConfig> = Vec::new();
    r.push(session_action("lock", "default", 0x31));
    r.push(session_action("logout", "default", 0x32));
    r.push(session_action("lock_and_suspend", "default", 0x33));
    r.push(session_action("reboot", "default", 0x34));
    r.push(session_action("shutdown", "destructive", 0x35));
    r
}

} // verus!
