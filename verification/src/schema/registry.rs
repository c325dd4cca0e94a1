//! The keys each configuration schema knows, and the search for keys it does not.
//!
//! Every schema is a list of fields; a field is a plain value, a nested table
//! (`Sub`), a map of named tables (`Named`) or an array of tables (`Array`),
//! the last three with a schema of their own.

use vstd::prelude::*;
use crate::value::{TomlTable, TomlValue, TomlData, TableData, lookup, items_data, lemma_items_data};
use crate::schema::diagnostics::{join_path, spec_join_path};
use crate::text::str_equal;
use crate::schema::config_schema::{is_known_desktop_widget_path, spec_is_known_desktop_widget_path};

verus! {

/// The schemas of the configuration.
#[derive(Debug, Clone, Copy, PartialEq, Eq, Structural)]
pub enum SchemaId {
    Audio,
    Weather,
    OsdKinds,
    Osd,
    Backdrop,
    Lockscreen,
    SystemMonitor,
    System,
    Nightlight,
    Location,
    NotificationFilter,
    Notification,
    Dock,
    DesktopWidgetsGrid,
    DesktopWidgets,
    LockscreenWidgets,
    Corner,
    HotCorners,
    BrightnessMonitor,
    Brightness,
    BatteryDevice,
    Battery,
    Shortcut,
    CalendarTab,
    ControlCenter,
    PluginSource,
    Plugins,
    CalendarAccount,
    Calendar,
    Keybinds,
    Hooks,
    IdleBehavior,
    Idle,
    WallpaperAutomation,
    WallpaperMonitor,
    Wallpaper,
    UserTemplate,
    Templates,
    Theme,
    ShellAnimation,
    ShellShadow,
    DmenuEntry,
    ShellLauncherDmenu,
    ShellPanel,
    LauncherProvider,
    ShellLauncher,
    ShellScreenCorners,
    ShellMpris,
    ShellScreenshot,
    ShellPrivacy,
    SessionAction,
    ShellSessionPower,
    ShellGreeterSync,
    ShellSession,
    Shell,
    Accessibility,
    Storage,
    BarCapsuleGroup,
    BarDeadZone,
    BarDeadZoneOverride,
    BarFields,
    BarMonitorOverride,
}

/// What a field of a schema holds.
#[derive(Debug, Clone, Copy, PartialEq, Eq, Structural)]
pub enum FieldKind {
    /// A plain value.
    Leaf,
    /// A table with the given schema.
    Sub(SchemaId),
    /// Tables under names of the user's choosing, each with the given schema.
    Named(SchemaId),
    /// An array of tables, each with the given schema.
    Array(SchemaId),
}

/// The fields of a schema, in order: each key and what it holds.
pub open spec fn schema_fields(id: SchemaId) -> Seq<(Seq<char>, FieldKind)> {
    match id {
        SchemaId::Audio => seq![("enable_overdrive"@, FieldKind::Leaf), ("enable_sounds"@, FieldKind::Leaf), ("sound_volume"@, FieldKind::Leaf), ("volume_change_sound"@, FieldKind::Leaf), ("notification_sound"@, FieldKind::Leaf)],
        SchemaId::Weather => seq![("enabled"@, FieldKind::Leaf), ("effects"@, FieldKind::Leaf), ("refresh_minutes"@, FieldKind::Leaf), ("unit"@, FieldKind::Leaf)],
        SchemaId::OsdKinds => seq![("volume"@, FieldKind::Leaf), ("volume_output"@, FieldKind::Leaf), ("volume_input"@, FieldKind::Leaf), ("brightness"@, FieldKind::Leaf), ("wifi"@, FieldKind::Leaf), ("bluetooth"@, FieldKind::Leaf), ("power_profile"@, FieldKind::Leaf), ("caffeine"@, FieldKind::Leaf), ("nightlight"@, FieldKind::Leaf), ("dnd"@, FieldKind::Leaf), ("lock_keys"@, FieldKind::Leaf), ("keyboard_layout"@, FieldKind::Leaf), ("media"@, FieldKind::Leaf), ("privacy"@, FieldKind::Leaf), ("keyboard_backlight"@, FieldKind::Leaf)],
        SchemaId::Osd => seq![("enabled"@, FieldKind::Leaf), ("position"@, FieldKind::Leaf), ("position_vertical"@, FieldKind::Leaf), ("orientation"@, FieldKind::Leaf), ("scale"@, FieldKind::Leaf), ("background_opacity"@, FieldKind::Leaf), ("border"@, FieldKind::Leaf), ("offset_x"@, FieldKind::Leaf), ("offset_y"@, FieldKind::Leaf), ("monitors"@, FieldKind::Leaf), ("kinds"@, FieldKind::Sub(SchemaId::OsdKinds))],
        SchemaId::Backdrop => seq![("enabled"@, FieldKind::Leaf), ("blur_intensity"@, FieldKind::Leaf), ("tint_intensity"@, FieldKind::Leaf)],
        SchemaId::Lockscreen => seq![("enabled"@, FieldKind::Leaf), ("fingerprint"@, FieldKind::Leaf), ("allow_empty_password"@, FieldKind::Leaf), ("blurred_desktop"@, FieldKind::Leaf), ("blur_intensity"@, FieldKind::Leaf), ("tint_intensity"@, FieldKind::Leaf), ("wallpaper"@, FieldKind::Leaf), ("monitors"@, FieldKind::Leaf)],
        SchemaId::SystemMonitor => seq![("enabled"@, FieldKind::Leaf), ("cpu_temp_sensor_path"@, FieldKind::Leaf), ("cpu_poll_seconds"@, FieldKind::Leaf), ("gpu_poll_seconds"@, FieldKind::Leaf), ("memory_poll_seconds"@, FieldKind::Leaf), ("network_poll_seconds"@, FieldKind::Leaf), ("disk_poll_seconds"@, FieldKind::Leaf), ("cpu_usage_activity_threshold"@, FieldKind::Leaf), ("cpu_usage_critical_threshold"@, FieldKind::Leaf), ("cpu_temp_activity_threshold"@, FieldKind::Leaf), ("cpu_temp_critical_threshold"@, FieldKind::Leaf), ("gpu_temp_activity_threshold"@, FieldKind::Leaf), ("gpu_temp_critical_threshold"@, FieldKind::Leaf), ("gpu_usage_activity_threshold"@, FieldKind::Leaf), ("gpu_usage_critical_threshold"@, FieldKind::Leaf), ("gpu_vram_activity_threshold"@, FieldKind::Leaf), ("gpu_vram_critical_threshold"@, FieldKind::Leaf), ("ram_pct_activity_threshold"@, FieldKind::Leaf), ("ram_pct_critical_threshold"@, FieldKind::Leaf), ("swap_pct_activity_threshold"@, FieldKind::Leaf), ("swap_pct_critical_threshold"@, FieldKind::Leaf), ("disk_used_pct_activity_threshold"@, FieldKind::Leaf), ("disk_used_pct_critical_threshold"@, FieldKind::Leaf), ("disk_used_activity_threshold"@, FieldKind::Leaf), ("disk_used_critical_threshold"@, FieldKind::Leaf), ("disk_free_pct_activity_threshold"@, FieldKind::Leaf), ("disk_free_pct_critical_threshold"@, FieldKind::Leaf), ("disk_free_activity_threshold"@, FieldKind::Leaf), ("disk_free_critical_threshold"@, FieldKind::Leaf), ("net_rx_activity_threshold"@, FieldKind::Leaf), ("net_rx_critical_threshold"@, FieldKind::Leaf), ("net_tx_activity_threshold"@, FieldKind::Leaf), ("net_tx_critical_threshold"@, FieldKind::Leaf)],
        SchemaId::System => seq![("monitor"@, FieldKind::Sub(SchemaId::SystemMonitor))],
        SchemaId::Nightlight => seq![("enabled"@, FieldKind::Leaf), ("force"@, FieldKind::Leaf), ("temperature_day"@, FieldKind::Leaf), ("temperature_night"@, FieldKind::Leaf), (""@, FieldKind::Leaf)],
        SchemaId::Location => seq![("auto_locate"@, FieldKind::Leaf), ("address"@, FieldKind::Leaf), ("custom_schedule"@, FieldKind::Leaf), ("sunset"@, FieldKind::Leaf), ("sunrise"@, FieldKind::Leaf), ("latitude"@, FieldKind::Leaf), ("longitude"@, FieldKind::Leaf)],
        SchemaId::NotificationFilter => seq![("enabled"@, FieldKind::Leaf), ("matches"@, FieldKind::Leaf), ("match"@, FieldKind::Leaf), ("match_content"@, FieldKind::Leaf), ("show_toast"@, FieldKind::Leaf), ("save_history"@, FieldKind::Leaf), ("play_sound"@, FieldKind::Leaf), ("allow_permanent"@, FieldKind::Leaf), ("override_duration"@, FieldKind::Leaf), ("allowed_urgencies"@, FieldKind::Leaf), ("allow_critical"@, FieldKind::Leaf), (""@, FieldKind::Leaf)],
        SchemaId::Notification => seq![("enable_daemon"@, FieldKind::Leaf), ("show_app_name"@, FieldKind::Leaf), ("show_actions"@, FieldKind::Leaf), ("position"@, FieldKind::Leaf), ("layer"@, FieldKind::Leaf), ("scale"@, FieldKind::Leaf), ("background_opacity"@, FieldKind::Leaf), ("border"@, FieldKind::Leaf), ("offset_x"@, FieldKind::Leaf), ("offset_y"@, FieldKind::Leaf), ("monitors"@, FieldKind::Leaf), ("collapse_on_dismiss"@, FieldKind::Leaf), ("history_retention_hours"@, FieldKind::Leaf), ("blacklist"@, FieldKind::Leaf), ("blacklist_allow_critical"@, FieldKind::Leaf), ("filter_order"@, FieldKind::Leaf), ("filter"@, FieldKind::Named(SchemaId::NotificationFilter)), (""@, FieldKind::Leaf)],
        SchemaId::Dock => seq![("enabled"@, FieldKind::Leaf), ("position"@, FieldKind::Leaf), ("active_monitor_only"@, FieldKind::Leaf), ("icon_size"@, FieldKind::Leaf), ("main_axis_padding"@, FieldKind::Leaf), ("cross_axis_padding"@, FieldKind::Leaf), ("item_spacing"@, FieldKind::Leaf), ("background_opacity"@, FieldKind::Leaf), ("border"@, FieldKind::Leaf), ("border_width"@, FieldKind::Leaf), ("radius"@, FieldKind::Leaf), ("radius_top_left"@, FieldKind::Leaf), ("radius_top_right"@, FieldKind::Leaf), ("radius_bottom_left"@, FieldKind::Leaf), ("radius_bottom_right"@, FieldKind::Leaf), ("concave_edge_corners"@, FieldKind::Leaf), ("margin_ends"@, FieldKind::Leaf), ("margin_edge"@, FieldKind::Leaf), ("shadow"@, FieldKind::Leaf), ("show_running"@, FieldKind::Leaf), ("auto_hide"@, FieldKind::Leaf), ("smart_auto_hide"@, FieldKind::Leaf), ("layer"@, FieldKind::Leaf), ("reserve_space"@, FieldKind::Leaf), ("active_scale"@, FieldKind::Leaf), ("inactive_scale"@, FieldKind::Leaf), ("magnification"@, FieldKind::Leaf), ("magnification_scale"@, FieldKind::Leaf), ("active_opacity"@, FieldKind::Leaf), ("inactive_opacity"@, FieldKind::Leaf), ("show_dots"@, FieldKind::Leaf), ("show_instance_count"@, FieldKind::Leaf), ("launcher_position"@, FieldKind::Leaf), ("launcher_icon"@, FieldKind::Leaf), ("launcher_custom_image"@, FieldKind::Leaf), ("launcher_custom_image_colorize"@, FieldKind::Leaf), ("pinned"@, FieldKind::Leaf), ("monitors"@, FieldKind::Leaf)],
        SchemaId::DesktopWidgetsGrid => seq![("visible"@, FieldKind::Leaf), ("cell_size"@, FieldKind::Leaf), ("major_interval"@, FieldKind::Leaf)],
        SchemaId::DesktopWidgets => seq![("enabled"@, FieldKind::Leaf), ("schema_version"@, FieldKind::Leaf), ("grid"@, FieldKind::Sub(SchemaId::DesktopWidgetsGrid))],
        SchemaId::LockscreenWidgets => seq![("enabled"@, FieldKind::Leaf), ("schema_version"@, FieldKind::Leaf), ("grid"@, FieldKind::Sub(SchemaId::DesktopWidgetsGrid))],
        SchemaId::Corner => seq![("action"@, FieldKind::Leaf), ("command"@, FieldKind::Leaf)],
        SchemaId::HotCorners => seq![("enabled"@, FieldKind::Leaf), ("delay_ms"@, FieldKind::Leaf), ("top_left"@, FieldKind::Sub(SchemaId::Corner)), ("top_right"@, FieldKind::Sub(SchemaId::Corner)), ("bottom_left"@, FieldKind::Sub(SchemaId::Corner)), ("bottom_right"@, FieldKind::Sub(SchemaId::Corner))],
        SchemaId::BrightnessMonitor => seq![("match"@, FieldKind::Leaf), ("backend"@, FieldKind::Leaf)],
        SchemaId::Brightness => seq![("enable_ddcutil"@, FieldKind::Leaf), ("ddcutil_ignore_mmids"@, FieldKind::Leaf), ("monitor"@, FieldKind::Named(SchemaId::BrightnessMonitor))],
        SchemaId::BatteryDevice => seq![("name"@, FieldKind::Leaf), ("warning_threshold"@, FieldKind::Leaf)],
        SchemaId::Battery => seq![("warning_threshold"@, FieldKind::Leaf), ("device"@, FieldKind::Named(SchemaId::BatteryDevice))],
        SchemaId::Shortcut => seq![("type"@, FieldKind::Leaf)],
        SchemaId::CalendarTab => seq![("show_events_card"@, FieldKind::Leaf), ("show_week_numbers"@, FieldKind::Leaf), ("event_date_format"@, FieldKind::Leaf), ("event_time_format"@, FieldKind::Leaf)],
        SchemaId::ControlCenter => seq![("sidebar"@, FieldKind::Leaf), ("sidebar_section"@, FieldKind::Leaf), ("width"@, FieldKind::Leaf), ("show_shortcut_labels"@, FieldKind::Leaf), ("hidden_tabs"@, FieldKind::Leaf), ("calendar"@, FieldKind::Sub(SchemaId::CalendarTab)), ("shortcuts"@, FieldKind::Array(SchemaId::Shortcut))],
        SchemaId::PluginSource => seq![("name"@, FieldKind::Leaf), ("kind"@, FieldKind::Leaf), ("location"@, FieldKind::Leaf)],
        SchemaId::Plugins => seq![("source"@, FieldKind::Array(SchemaId::PluginSource)), ("enabled"@, FieldKind::Leaf), ("auto_update"@, FieldKind::Leaf)],
        SchemaId::CalendarAccount => seq![("type"@, FieldKind::Leaf), ("name"@, FieldKind::Leaf), ("color"@, FieldKind::Leaf), ("provider"@, FieldKind::Leaf), ("server_url"@, FieldKind::Leaf), ("username"@, FieldKind::Leaf), ("enabled_calendars"@, FieldKind::Leaf), ("credential_source"@, FieldKind::Leaf), ("password_file"@, FieldKind::Leaf), (""@, FieldKind::Leaf)],
        SchemaId::Calendar => seq![("enabled"@, FieldKind::Leaf), ("refresh_minutes"@, FieldKind::Leaf), ("account"@, FieldKind::Named(SchemaId::CalendarAccount))],
        SchemaId::Keybinds => seq![("validate"@, FieldKind::Leaf), ("cancel"@, FieldKind::Leaf), ("left"@, FieldKind::Leaf), ("right"@, FieldKind::Leaf), ("up"@, FieldKind::Leaf), ("down"@, FieldKind::Leaf), ("tab_next"@, FieldKind::Leaf), ("tab_previous"@, FieldKind::Leaf)],
        SchemaId::Hooks => seq![("started"@, FieldKind::Leaf), ("wallpaper_changed"@, FieldKind::Leaf), ("colors_changed"@, FieldKind::Leaf), ("theme_mode_changed"@, FieldKind::Leaf), ("session_locked"@, FieldKind::Leaf), ("session_unlocked"@, FieldKind::Leaf), ("logging_out"@, FieldKind::Leaf), ("rebooting"@, FieldKind::Leaf), ("shutting_down"@, FieldKind::Leaf), ("wifi_enabled"@, FieldKind::Leaf), ("wifi_disabled"@, FieldKind::Leaf), ("bluetooth_enabled"@, FieldKind::Leaf), ("bluetooth_disabled"@, FieldKind::Leaf), ("battery_charging"@, FieldKind::Leaf), ("battery_discharging"@, FieldKind::Leaf), ("battery_plugged"@, FieldKind::Leaf), ("battery_percentage_changed"@, FieldKind::Leaf), ("power_profile_changed"@, FieldKind::Leaf)],
        SchemaId::IdleBehavior => seq![("name"@, FieldKind::Leaf), ("enabled"@, FieldKind::Leaf), ("timeout"@, FieldKind::Leaf), ("action"@, FieldKind::Leaf), ("command"@, FieldKind::Leaf), ("resume_command"@, FieldKind::Leaf), ("lock_before_suspend"@, FieldKind::Leaf)],
        SchemaId::Idle => seq![("pre_action_fade_seconds"@, FieldKind::Leaf), ("behavior"@, FieldKind::Array(SchemaId::IdleBehavior))],
        SchemaId::WallpaperAutomation => seq![("enabled"@, FieldKind::Leaf), ("interval_seconds"@, FieldKind::Leaf), ("order"@, FieldKind::Leaf), ("recursive"@, FieldKind::Leaf)],
        SchemaId::WallpaperMonitor => seq![("match"@, FieldKind::Leaf), ("enabled"@, FieldKind::Leaf), ("fill_color"@, FieldKind::Leaf), ("directory"@, FieldKind::Leaf), ("directory_light"@, FieldKind::Leaf), ("directory_dark"@, FieldKind::Leaf)],
        SchemaId::Wallpaper => seq![("enabled"@, FieldKind::Leaf), ("fill_mode"@, FieldKind::Leaf), ("fill_color"@, FieldKind::Leaf), ("transition"@, FieldKind::Leaf), ("transition_duration"@, FieldKind::Leaf), ("edge_smoothness"@, FieldKind::Leaf), ("transition_on_startup"@, FieldKind::Leaf), ("directory"@, FieldKind::Leaf), ("directory_light"@, FieldKind::Leaf), ("directory_dark"@, FieldKind::Leaf), ("per_monitor_directories"@, FieldKind::Leaf), ("automation"@, FieldKind::Sub(SchemaId::WallpaperAutomation)), ("monitor"@, FieldKind::Named(SchemaId::WallpaperMonitor))],
        SchemaId::UserTemplate => seq![("name"@, FieldKind::Leaf), ("enabled"@, FieldKind::Leaf), ("input_path"@, FieldKind::Leaf), ("input_path_modes"@, FieldKind::Leaf), ("output_path"@, FieldKind::Leaf), ("dynamic_template"@, FieldKind::Leaf), ("compare_mode"@, FieldKind::Leaf), ("compare_colors"@, FieldKind::Leaf), ("pre_command"@, FieldKind::Leaf), ("post_command"@, FieldKind::Leaf), ("palette_export_kind"@, FieldKind::Leaf), ("palette_export_variant_index"@, FieldKind::Leaf)],
        SchemaId::Templates => seq![("enable_builtin_templates"@, FieldKind::Leaf), ("builtin_ids"@, FieldKind::Leaf), ("enable_community_templates"@, FieldKind::Leaf), ("community_ids"@, FieldKind::Leaf), ("custom_colors"@, FieldKind::Leaf), ("user"@, FieldKind::Named(SchemaId::UserTemplate))],
        SchemaId::Theme => seq![("source"@, FieldKind::Leaf), ("builtin"@, FieldKind::Leaf), ("community_palette"@, FieldKind::Leaf), ("custom_palette"@, FieldKind::Leaf), ("wallpaper_scheme"@, FieldKind::Leaf), ("mode"@, FieldKind::Leaf), ("pure_black_dark"@, FieldKind::Leaf), ("templates"@, FieldKind::Sub(SchemaId::Templates))],
        SchemaId::ShellAnimation => seq![("enabled"@, FieldKind::Leaf), ("speed"@, FieldKind::Leaf)],
        SchemaId::ShellShadow => seq![("direction"@, FieldKind::Leaf), ("alpha"@, FieldKind::Leaf)],
        SchemaId::DmenuEntry => seq![("id"@, FieldKind::Leaf), ("exec"@, FieldKind::Leaf), ("prefix"@, FieldKind::Leaf), ("label"@, FieldKind::Leaf), ("glyph"@, FieldKind::Leaf), ("freeform"@, FieldKind::Leaf)],
        SchemaId::ShellLauncherDmenu => seq![("entries"@, FieldKind::Array(SchemaId::DmenuEntry))],
        SchemaId::ShellPanel => seq![("transparency_mode"@, FieldKind::Leaf), ("borders"@, FieldKind::Leaf), ("shadow"@, FieldKind::Leaf), ("list_item_background"@, FieldKind::Leaf), ("launcher_placement"@, FieldKind::Leaf), ("clipboard_placement"@, FieldKind::Leaf), ("control_center_placement"@, FieldKind::Leaf), ("wallpaper_placement"@, FieldKind::Leaf), ("session_placement"@, FieldKind::Leaf), ("polkit_placement"@, FieldKind::Leaf), ("launcher_position"@, FieldKind::Leaf), ("clipboard_position"@, FieldKind::Leaf), ("control_center_position"@, FieldKind::Leaf), ("wallpaper_position"@, FieldKind::Leaf), ("session_position"@, FieldKind::Leaf), ("polkit_position"@, FieldKind::Leaf), ("floating_offset"@, FieldKind::Leaf), ("open_near_click_control_center"@, FieldKind::Leaf), ("open_near_click_launcher"@, FieldKind::Leaf), ("open_near_click_clipboard"@, FieldKind::Leaf), ("open_near_click_wallpaper"@, FieldKind::Leaf), ("open_near_click_session"@, FieldKind::Leaf)],
        SchemaId::LauncherProvider => seq![("prefix"@, FieldKind::Leaf), ("global"@, FieldKind::Leaf)],
        SchemaId::ShellLauncher => seq![("categories"@, FieldKind::Leaf), ("show_icons"@, FieldKind::Leaf), ("compact"@, FieldKind::Leaf), ("app_grid"@, FieldKind::Leaf), ("sort_by_usage"@, FieldKind::Leaf), ("fetch_exchange_rates"@, FieldKind::Leaf), ("provider_prefix"@, FieldKind::Leaf), ("auto_paste"@, FieldKind::Leaf), ("dmenu"@, FieldKind::Sub(SchemaId::ShellLauncherDmenu)), ("providers"@, FieldKind::Named(SchemaId::LauncherProvider))],
        SchemaId::ShellScreenCorners => seq![("enabled"@, FieldKind::Leaf), ("size"@, FieldKind::Leaf)],
        SchemaId::ShellMpris => seq![("blacklist"@, FieldKind::Leaf)],
        SchemaId::ShellScreenshot => seq![("directory"@, FieldKind::Leaf), ("pipe_to_command"@, FieldKind::Leaf)],
        SchemaId::ShellPrivacy => seq![("mic_filter_regex"@, FieldKind::Leaf), ("cam_filter_regex"@, FieldKind::Leaf), ("screen_filter_regex"@, FieldKind::Leaf)],
        SchemaId::SessionAction => seq![("action"@, FieldKind::Leaf), ("enabled"@, FieldKind::Leaf), ("command"@, FieldKind::Leaf), ("label"@, FieldKind::Leaf), ("glyph"@, FieldKind::Leaf), ("variant"@, FieldKind::Leaf), ("countdown_seconds"@, FieldKind::Leaf)],
        SchemaId::ShellSessionPower => seq![("suspend"@, FieldKind::Leaf), ("reboot"@, FieldKind::Leaf), ("shutdown"@, FieldKind::Leaf)],
        SchemaId::ShellGreeterSync => seq![("auto_sync"@, FieldKind::Leaf), ("privilege_command"@, FieldKind::Leaf)],
        SchemaId::ShellSession => seq![("actions"@, FieldKind::Array(SchemaId::SessionAction)), ("power"@, FieldKind::Sub(SchemaId::ShellSessionPower))],
        SchemaId::Shell => seq![("corner_radius_scale"@, FieldKind::Leaf), ("button_borders"@, FieldKind::Leaf), ("input_borders"@, FieldKind::Leaf), ("popup_borders"@, FieldKind::Leaf), ("popup_shadows"@, FieldKind::Leaf), ("card_borders"@, FieldKind::Leaf), ("font_family"@, FieldKind::Leaf), ("lang"@, FieldKind::Leaf), ("time_format"@, FieldKind::Leaf), ("date_format"@, FieldKind::Leaf), ("offline_mode"@, FieldKind::Leaf), ("panel_anchor_bar"@, FieldKind::Leaf), ("external_ip_enabled"@, FieldKind::Leaf), ("telemetry_enabled"@, FieldKind::Leaf), ("setup_wizard_enabled"@, FieldKind::Leaf), ("niri_overview_type_to_launch_enabled"@, FieldKind::Leaf), ("polkit_agent"@, FieldKind::Leaf), ("password_style"@, FieldKind::Leaf), ("settings_show_advanced"@, FieldKind::Leaf), ("show_location"@, FieldKind::Leaf), ("app_icon_colorize"@, FieldKind::Leaf), ("app_icon_color"@, FieldKind::Leaf), ("launch_apps_as_systemd_services"@, FieldKind::Leaf), ("launch_apps_custom_command"@, FieldKind::Leaf), ("clipboard_enabled"@, FieldKind::Leaf), ("clipboard_keep_from_closed_apps"@, FieldKind::Leaf), ("clipboard_history_max_entries"@, FieldKind::Leaf), ("clipboard_confirm_clear_history"@, FieldKind::Leaf), ("screen_time_enabled"@, FieldKind::Leaf), ("shared_gl_context"@, FieldKind::Leaf), ("disable_mipmaps"@, FieldKind::Leaf), ("clipboard_auto_paste"@, FieldKind::Leaf), ("clipboard_image_action_command"@, FieldKind::Leaf), ("avatar_path"@, FieldKind::Leaf), ("animation"@, FieldKind::Sub(SchemaId::ShellAnimation)), ("shadow"@, FieldKind::Sub(SchemaId::ShellShadow)), ("panel"@, FieldKind::Sub(SchemaId::ShellPanel)), ("launcher"@, FieldKind::Sub(SchemaId::ShellLauncher)), ("screen_corners"@, FieldKind::Sub(SchemaId::ShellScreenCorners)), ("mpris"@, FieldKind::Sub(SchemaId::ShellMpris)), ("screenshot"@, FieldKind::Sub(SchemaId::ShellScreenshot)), ("privacy"@, FieldKind::Sub(SchemaId::ShellPrivacy)), ("session"@, FieldKind::Sub(SchemaId::ShellSession)), ("greeter_sync"@, FieldKind::Sub(SchemaId::ShellGreeterSync))],
        SchemaId::Accessibility => seq![("ui_scale"@, FieldKind::Leaf), ("high_contrast"@, FieldKind::Leaf)],
        SchemaId::Storage => seq![("key_source"@, FieldKind::Leaf), ("key_file"@, FieldKind::Leaf), (""@, FieldKind::Leaf)],
        SchemaId::BarCapsuleGroup => seq![("id"@, FieldKind::Leaf), ("enabled"@, FieldKind::Leaf), ("members"@, FieldKind::Leaf), ("fill"@, FieldKind::Leaf), ("border"@, FieldKind::Leaf), ("foreground"@, FieldKind::Leaf), ("padding"@, FieldKind::Leaf), ("radius"@, FieldKind::Leaf), ("opacity"@, FieldKind::Leaf)],
        SchemaId::BarDeadZone => seq![("actions"@, FieldKind::Leaf)],
        SchemaId::BarDeadZoneOverride => seq![("actions"@, FieldKind::Leaf)],
        SchemaId::BarFields => seq![("enabled"@, FieldKind::Leaf), ("auto_hide"@, FieldKind::Leaf), ("smart_auto_hide"@, FieldKind::Leaf), ("show_on_workspace_switch"@, FieldKind::Leaf), ("reserve_space"@, FieldKind::Leaf), ("layer"@, FieldKind::Leaf), ("thickness"@, FieldKind::Leaf), ("background_opacity"@, FieldKind::Leaf), ("border"@, FieldKind::Leaf), ("border_width"@, FieldKind::Leaf), ("radius"@, FieldKind::Leaf), ("radius_top_left"@, FieldKind::Leaf), ("radius_top_right"@, FieldKind::Leaf), ("radius_bottom_left"@, FieldKind::Leaf), ("radius_bottom_right"@, FieldKind::Leaf), ("concave_edge_corners"@, FieldKind::Leaf), ("margin_ends"@, FieldKind::Leaf), ("margin_edge"@, FieldKind::Leaf), ("margin_opposite_edge"@, FieldKind::Leaf), ("padding"@, FieldKind::Leaf), ("widget_spacing"@, FieldKind::Leaf), ("shadow"@, FieldKind::Leaf), ("contact_shadow"@, FieldKind::Leaf), ("panel_overlap"@, FieldKind::Leaf), ("capsule_thickness"@, FieldKind::Leaf), ("scale"@, FieldKind::Leaf), ("font_weight"@, FieldKind::Leaf), ("font_family"@, FieldKind::Leaf), ("start"@, FieldKind::Leaf), ("center"@, FieldKind::Leaf), ("end"@, FieldKind::Leaf), ("capsule"@, FieldKind::Leaf), ("capsule_fill"@, FieldKind::Leaf), ("capsule_foreground"@, FieldKind::Leaf), ("color"@, FieldKind::Leaf), ("icon_color"@, FieldKind::Leaf), ("capsule_group"@, FieldKind::Array(SchemaId::BarCapsuleGroup)), ("capsule_padding"@, FieldKind::Leaf), ("capsule_radius"@, FieldKind::Leaf), ("capsule_opacity"@, FieldKind::Leaf), ("capsule_border"@, FieldKind::Leaf), ("hover_highlight"@, FieldKind::Leaf), ("dead_zone"@, FieldKind::Sub(SchemaId::BarDeadZone)), ("actions"@, FieldKind::Leaf)],
        SchemaId::BarMonitorOverride => seq![("match"@, FieldKind::Leaf), ("position"@, FieldKind::Leaf), ("enabled"@, FieldKind::Leaf), ("auto_hide"@, FieldKind::Leaf), ("smart_auto_hide"@, FieldKind::Leaf), ("show_on_workspace_switch"@, FieldKind::Leaf), ("reserve_space"@, FieldKind::Leaf), ("layer"@, FieldKind::Leaf), ("thickness"@, FieldKind::Leaf), ("background_opacity"@, FieldKind::Leaf), ("border"@, FieldKind::Leaf), ("border_width"@, FieldKind::Leaf), ("radius"@, FieldKind::Leaf), ("radius_top_left"@, FieldKind::Leaf), ("radius_top_right"@, FieldKind::Leaf), ("radius_bottom_left"@, FieldKind::Leaf), ("radius_bottom_right"@, FieldKind::Leaf), ("concave_edge_corners"@, FieldKind::Leaf), ("margin_ends"@, FieldKind::Leaf), ("margin_edge"@, FieldKind::Leaf), ("margin_opposite_edge"@, FieldKind::Leaf), ("padding"@, FieldKind::Leaf), ("widget_spacing"@, FieldKind::Leaf), ("scale"@, FieldKind::Leaf), ("shadow"@, FieldKind::Leaf), ("contact_shadow"@, FieldKind::Leaf), ("panel_overlap"@, FieldKind::Leaf), ("capsule_thickness"@, FieldKind::Leaf), ("font_family"@, FieldKind::Leaf), ("start"@, FieldKind::Leaf), ("center"@, FieldKind::Leaf), ("end"@, FieldKind::Leaf), ("capsule"@, FieldKind::Leaf), ("capsule_fill"@, FieldKind::Leaf), ("capsule_foreground"@, FieldKind::Leaf), ("color"@, FieldKind::Leaf), ("icon_color"@, FieldKind::Leaf), ("capsule_padding"@, FieldKind::Leaf), ("capsule_radius"@, FieldKind::Leaf), ("capsule_opacity"@, FieldKind::Leaf), ("capsule_border"@, FieldKind::Leaf), ("hover_highlight"@, FieldKind::Leaf), ("capsule_group"@, FieldKind::Leaf), ("dead_zone"@, FieldKind::Sub(SchemaId::BarDeadZoneOverride))],
    }
}

/// The content of a list of fields.
pub open spec fn fields_view(v: Seq<(&str, FieldKind)>) -> Seq<(Seq<char>, FieldKind)> {
    v.map_values(|f: (&str, FieldKind)| (f.0@, f.1))
}

fn fields_audio() -> (r: Vec<(&'static str, FieldKind)>)
    ensures
        fields_view(r@) == schema_fields(SchemaId::Audio),
{
    let r: Vec<(&'static str, FieldKind)> = vec![("enable_overdrive", FieldKind::Leaf), ("enable_sounds", FieldKind::Leaf), ("sound_volume", FieldKind::Leaf), ("volume_change_sound", FieldKind::Leaf), ("notification_sound", FieldKind::Leaf)];
    assert(fields_view(r@) =~= schema_fields(SchemaId::Audio));
    r
}

fn fields_weather() -> (r: Vec<(&'static str, FieldKind)>)
    ensures
        fields_view(r@) == schema_fields(SchemaId::Weather),
{
    let r: Vec<(&'static str, FieldKind)> = vec![("enabled", FieldKind::Leaf), ("effects", FieldKind::Leaf), ("refresh_minutes", FieldKind::Leaf), ("unit", FieldKind::Leaf)];
    assert(fields_view(r@) =~= schema_fields(SchemaId::Weather));
    r
}

fn fields_osd_kinds() -> (r: Vec<(&'static str, FieldKind)>)
    ensures
        fields_view(r@) == schema_fields(SchemaId::OsdKinds),
{
    let r: Vec<(&'static str, FieldKind)> = vec![("volume", FieldKind::Leaf), ("volume_output", FieldKind::Leaf), ("volume_input", FieldKind::Leaf), ("brightness", FieldKind::Leaf), ("wifi", FieldKind::Leaf), ("bluetooth", FieldKind::Leaf), ("power_profile", FieldKind::Leaf), ("caffeine", FieldKind::Leaf), ("nightlight", FieldKind::Leaf), ("dnd", FieldKind::Leaf), ("lock_keys", FieldKind::Leaf), ("keyboard_layout", FieldKind::Leaf), ("media", FieldKind::Leaf), ("privacy", FieldKind::Leaf), ("keyboard_backlight", FieldKind::Leaf)];
    assert(fields_view(r@) =~= schema_fields(SchemaId::OsdKinds));
    r
}

fn fields_osd() -> (r: Vec<(&'static str, FieldKind)>)
    ensures
        fields_view(r@) == schema_fields(SchemaId::Osd),
{
    let r: Vec<(&'static str, FieldKind)> = vec![("enabled", FieldKind::Leaf), ("position", FieldKind::Leaf), ("position_vertical", FieldKind::Leaf), ("orientation", FieldKind::Leaf), ("scale", FieldKind::Leaf), ("background_opacity", FieldKind::Leaf), ("border", FieldKind::Leaf), ("offset_x", FieldKind::Leaf), ("offset_y", FieldKind::Leaf), ("monitors", FieldKind::Leaf), ("kinds", FieldKind::Sub(SchemaId::OsdKinds))];
    assert(fields_view(r@) =~= schema_fields(SchemaId::Osd));
    r
}

fn fields_backdrop() -> (r: Vec<(&'static str, FieldKind)>)
    ensures
        fields_view(r@) == schema_fields(SchemaId::Backdrop),
{
    let r: Vec<(&'static str, FieldKind)> = vec![("enabled", FieldKind::Leaf), ("blur_intensity", FieldKind::Leaf), ("tint_intensity", FieldKind::Leaf)];
    assert(fields_view(r@) =~= schema_fields(SchemaId::Backdrop));
    r
}

fn fields_lockscreen() -> (r: Vec<(&'static str, FieldKind)>)
    ensures
        fields_view(r@) == schema_fields(SchemaId::Lockscreen),
{
    let r: Vec<(&'static str, FieldKind)> = vec![("enabled", FieldKind::Leaf), ("fingerprint", FieldKind::Leaf), ("allow_empty_password", FieldKind::Leaf), ("blurred_desktop", FieldKind::Leaf), ("blur_intensity", FieldKind::Leaf), ("tint_intensity", FieldKind::Leaf), ("wallpaper", FieldKind::Leaf), ("monitors", FieldKind::Leaf)];
    assert(fields_view(r@) =~= schema_fields(SchemaId::Lockscreen));
    r
}

fn fields_system_monitor() -> (r: Vec<(&'static str, FieldKind)>)
    ensures
        fields_view(r@) == schema_fields(SchemaId::SystemMonitor),
{
    let r: Vec<(&'static str, FieldKind)> = vec![("enabled", FieldKind::Leaf), ("cpu_temp_sensor_path", FieldKind::Leaf), ("cpu_poll_seconds", FieldKind::Leaf), ("gpu_poll_seconds", FieldKind::Leaf), ("memory_poll_seconds", FieldKind::Leaf), ("network_poll_seconds", FieldKind::Leaf), ("disk_poll_seconds", FieldKind::Leaf), ("cpu_usage_activity_threshold", FieldKind::Leaf), ("cpu_usage_critical_threshold", FieldKind::Leaf), ("cpu_temp_activity_threshold", FieldKind::Leaf), ("cpu_temp_critical_threshold", FieldKind::Leaf), ("gpu_temp_activity_threshold", FieldKind::Leaf), ("gpu_temp_critical_threshold", FieldKind::Leaf), ("gpu_usage_activity_threshold", FieldKind::Leaf), ("gpu_usage_critical_threshold", FieldKind::Leaf), ("gpu_vram_activity_threshold", FieldKind::Leaf), ("gpu_vram_critical_threshold", FieldKind::Leaf), ("ram_pct_activity_threshold", FieldKind::Leaf), ("ram_pct_critical_threshold", FieldKind::Leaf), ("swap_pct_activity_threshold", FieldKind::Leaf), ("swap_pct_critical_threshold", FieldKind::Leaf), ("disk_used_pct_activity_threshold", FieldKind::Leaf), ("disk_used_pct_critical_threshold", FieldKind::Leaf), ("disk_used_activity_threshold", FieldKind::Leaf), ("disk_used_critical_threshold", FieldKind::Leaf), ("disk_free_pct_activity_threshold", FieldKind::Leaf), ("disk_free_pct_critical_threshold", FieldKind::Leaf), ("disk_free_activity_threshold", FieldKind::Leaf), ("disk_free_critical_threshold", FieldKind::Leaf), ("net_rx_activity_threshold", FieldKind::Leaf), ("net_rx_critical_threshold", FieldKind::Leaf), ("net_tx_activity_threshold", FieldKind::Leaf), ("net_tx_critical_threshold", FieldKind::Leaf)];
    assert(fields_view(r@) =~= schema_fields(SchemaId::SystemMonitor));
    r
}

fn fields_system() -> (r: Vec<(&'static str, FieldKind)>)
    ensures
        fields_view(r@) == schema_fields(SchemaId::System),
{
    let r: Vec<(&'static str, FieldKind)> = vec![("monitor", FieldKind::Sub(SchemaId::SystemMonitor))];
    assert(fields_view(r@) =~= schema_fields(SchemaId::System));
    r
}

fn fields_nightlight() -> (r: Vec<(&'static str, FieldKind)>)
    ensures
        fields_view(r@) == schema_fields(SchemaId::Nightlight),
{
    let r: Vec<(&'static str, FieldKind)> = vec![("enabled", FieldKind::Leaf), ("force", FieldKind::Leaf), ("temperature_day", FieldKind::Leaf), ("temperature_night", FieldKind::Leaf), ("", FieldKind::Leaf)];
    assert(fields_view(r@) =~= schema_fields(SchemaId::Nightlight));
    r
}

fn fields_location() -> (r: Vec<(&'static str, FieldKind)>)
    ensures
        fields_view(r@) == schema_fields(SchemaId::Location),
{
    let r: Vec<(&'static str, FieldKind)> = vec![("auto_locate", FieldKind::Leaf), ("address", FieldKind::Leaf), ("custom_schedule", FieldKind::Leaf), ("sunset", FieldKind::Leaf), ("sunrise", FieldKind::Leaf), ("latitude", FieldKind::Leaf), ("longitude", FieldKind::Leaf)];
    assert(fields_view(r@) =~= schema_fields(SchemaId::Location));
    r
}

fn fields_notification_filter() -> (r: Vec<(&'static str, FieldKind)>)
    ensures
        fields_view(r@) == schema_fields(SchemaId::NotificationFilter),
{
    let r: Vec<(&'static str, FieldKind)> = vec![("enabled", FieldKind::Leaf), ("matches", FieldKind::Leaf), ("match", FieldKind::Leaf), ("match_content", FieldKind::Leaf), ("show_toast", FieldKind::Leaf), ("save_history", FieldKind::Leaf), ("play_sound", FieldKind::Leaf), ("allow_permanent", FieldKind::Leaf), ("override_duration", FieldKind::Leaf), ("allowed_urgencies", FieldKind::Leaf), ("allow_critical", FieldKind::Leaf), ("", FieldKind::Leaf)];
    assert(fields_view(r@) =~= schema_fields(SchemaId::NotificationFilter));
    r
}

fn fields_notification() -> (r: Vec<(&'static str, FieldKind)>)
    ensures
        fields_view(r@) == schema_fields(SchemaId::Notification),
{
    let r: Vec<(&'static str, FieldKind)> = vec![("enable_daemon", FieldKind::Leaf), ("show_app_name", FieldKind::Leaf), ("show_actions", FieldKind::Leaf), ("position", FieldKind::Leaf), ("layer", FieldKind::Leaf), ("scale", FieldKind::Leaf), ("background_opacity", FieldKind::Leaf), ("border", FieldKind::Leaf), ("offset_x", FieldKind::Leaf), ("offset_y", FieldKind::Leaf), ("monitors", FieldKind::Leaf), ("collapse_on_dismiss", FieldKind::Leaf), ("history_retention_hours", FieldKind::Leaf), ("blacklist", FieldKind::Leaf), ("blacklist_allow_critical", FieldKind::Leaf), ("filter_order", FieldKind::Leaf), ("filter", FieldKind::Named(SchemaId::NotificationFilter)), ("", FieldKind::Leaf)];
    assert(fields_view(r@) =~= schema_fields(SchemaId::Notification));
    r
}

fn fields_dock() -> (r: Vec<(&'static str, FieldKind)>)
    ensures
        fields_view(r@) == schema_fields(SchemaId::Dock),
{
    let r: Vec<(&'static str, FieldKind)> = vec![("enabled", FieldKind::Leaf), ("position", FieldKind::Leaf), ("active_monitor_only", FieldKind::Leaf), ("icon_size", FieldKind::Leaf), ("main_axis_padding", FieldKind::Leaf), ("cross_axis_padding", FieldKind::Leaf), ("item_spacing", FieldKind::Leaf), ("background_opacity", FieldKind::Leaf), ("border", FieldKind::Leaf), ("border_width", FieldKind::Leaf), ("radius", FieldKind::Leaf), ("radius_top_left", FieldKind::Leaf), ("radius_top_right", FieldKind::Leaf), ("radius_bottom_left", FieldKind::Leaf), ("radius_bottom_right", FieldKind::Leaf), ("concave_edge_corners", FieldKind::Leaf), ("margin_ends", FieldKind::Leaf), ("margin_edge", FieldKind::Leaf), ("shadow", FieldKind::Leaf), ("show_running", FieldKind::Leaf), ("auto_hide", FieldKind::Leaf), ("smart_auto_hide", FieldKind::Leaf), ("layer", FieldKind::Leaf), ("reserve_space", FieldKind::Leaf), ("active_scale", FieldKind::Leaf), ("inactive_scale", FieldKind::Leaf), ("magnification", FieldKind::Leaf), ("magnification_scale", FieldKind::Leaf), ("active_opacity", FieldKind::Leaf), ("inactive_opacity", FieldKind::Leaf), ("show_dots", FieldKind::Leaf), ("show_instance_count", FieldKind::Leaf), ("launcher_position", FieldKind::Leaf), ("launcher_icon", FieldKind::Leaf), ("launcher_custom_image", FieldKind::Leaf), ("launcher_custom_image_colorize", FieldKind::Leaf), ("pinned", FieldKind::Leaf), ("monitors", FieldKind::Leaf)];
    assert(fields_view(r@) =~= schema_fields(SchemaId::Dock));
    r
}

fn fields_desktop_widgets_grid() -> (r: Vec<(&'static str, FieldKind)>)
    ensures
        fields_view(r@) == schema_fields(SchemaId::DesktopWidgetsGrid),
{
    let r: Vec<(&'static str, FieldKind)> = vec![("visible", FieldKind::Leaf), ("cell_size", FieldKind::Leaf), ("major_interval", FieldKind::Leaf)];
    assert(fields_view(r@) =~= schema_fields(SchemaId::DesktopWidgetsGrid));
    r
}

fn fields_desktop_widgets() -> (r: Vec<(&'static str, FieldKind)>)
    ensures
        fields_view(r@) == schema_fields(SchemaId::DesktopWidgets),
{
    let r: Vec<(&'static str, FieldKind)> = vec![("enabled", FieldKind::Leaf), ("schema_version", FieldKind::Leaf), ("grid", FieldKind::Sub(SchemaId::DesktopWidgetsGrid))];
    assert(fields_view(r@) =~= schema_fields(SchemaId::DesktopWidgets));
    r
}

fn fields_lockscreen_widgets() -> (r: Vec<(&'static str, FieldKind)>)
    ensures
        fields_view(r@) == schema_fields(SchemaId::LockscreenWidgets),
{
    let r: Vec<(&'static str, FieldKind)> = vec![("enabled", FieldKind::Leaf), ("schema_version", FieldKind::Leaf), ("grid", FieldKind::Sub(SchemaId::DesktopWidgetsGrid))];
    assert(fields_view(r@) =~= schema_fields(SchemaId::LockscreenWidgets));
    r
}

fn fields_corner() -> (r: Vec<(&'static str, FieldKind)>)
    ensures
        fields_view(r@) == schema_fields(SchemaId::Corner),
{
    let r: Vec<(&'static str, FieldKind)> = vec![("action", FieldKind::Leaf), ("command", FieldKind::Leaf)];
    assert(fields_view(r@) =~= schema_fields(SchemaId::Corner));
    r
}

fn fields_hot_corners() -> (r: Vec<(&'static str, FieldKind)>)
    ensures
        fields_view(r@) == schema_fields(SchemaId::HotCorners),
{
    let r: Vec<(&'static str, FieldKind)> = vec![("enabled", FieldKind::Leaf), ("delay_ms", FieldKind::Leaf), ("top_left", FieldKind::Sub(SchemaId::Corner)), ("top_right", FieldKind::Sub(SchemaId::Corner)), ("bottom_left", FieldKind::Sub(SchemaId::Corner)), ("bottom_right", FieldKind::Sub(SchemaId::Corner))];
    assert(fields_view(r@) =~= schema_fields(SchemaId::HotCorners));
    r
}

fn fields_brightness_monitor() -> (r: Vec<(&'static str, FieldKind)>)
    ensures
        fields_view(r@) == schema_fields(SchemaId::BrightnessMonitor),
{
    let r: Vec<(&'static str, FieldKind)> = vec![("match", FieldKind::Leaf), ("backend", FieldKind::Leaf)];
    assert(fields_view(r@) =~= schema_fields(SchemaId::BrightnessMonitor));
    r
}

fn fields_brightness() -> (r: Vec<(&'static str, FieldKind)>)
    ensures
        fields_view(r@) == schema_fields(SchemaId::Brightness),
{
    let r: Vec<(&'static str, FieldKind)> = vec![("enable_ddcutil", FieldKind::Leaf), ("ddcutil_ignore_mmids", FieldKind::Leaf), ("monitor", FieldKind::Named(SchemaId::BrightnessMonitor))];
    assert(fields_view(r@) =~= schema_fields(SchemaId::Brightness));
    r
}

fn fields_battery_device() -> (r: Vec<(&'static str, FieldKind)>)
    ensures
        fields_view(r@) == schema_fields(SchemaId::BatteryDevice),
{
    let r: Vec<(&'static str, FieldKind)> = vec![("name", FieldKind::Leaf), ("warning_threshold", FieldKind::Leaf)];
    assert(fields_view(r@) =~= schema_fields(SchemaId::BatteryDevice));
    r
}

fn fields_battery() -> (r: Vec<(&'static str, FieldKind)>)
    ensures
        fields_view(r@) == schema_fields(SchemaId::Battery),
{
    let r: Vec<(&'static str, FieldKind)> = vec![("warning_threshold", FieldKind::Leaf), ("device", FieldKind::Named(SchemaId::BatteryDevice))];
    assert(fields_view(r@) =~= schema_fields(SchemaId::Battery));
    r
}

fn fields_shortcut() -> (r: Vec<(&'static str, FieldKind)>)
    ensures
        fields_view(r@) == schema_fields(SchemaId::Shortcut),
{
    let r: Vec<(&'static str, FieldKind)> = vec![("type", FieldKind::Leaf)];
    assert(fields_view(r@) =~= schema_fields(SchemaId::Shortcut));
    r
}

fn fields_calendar_tab() -> (r: Vec<(&'static str, FieldKind)>)
    ensures
        fields_view(r@) == schema_fields(SchemaId::CalendarTab),
{
    let r: Vec<(&'static str, FieldKind)> = vec![("show_events_card", FieldKind::Leaf), ("show_week_numbers", FieldKind::Leaf), ("event_date_format", FieldKind::Leaf), ("event_time_format", FieldKind::Leaf)];
    assert(fields_view(r@) =~= schema_fields(SchemaId::CalendarTab));
    r
}

fn fields_control_center() -> (r: Vec<(&'static str, FieldKind)>)
    ensures
        fields_view(r@) == schema_fields(SchemaId::ControlCenter),
{
    let r: Vec<(&'static str, FieldKind)> = vec![("sidebar", FieldKind::Leaf), ("sidebar_section", FieldKind::Leaf), ("width", FieldKind::Leaf), ("show_shortcut_labels", FieldKind::Leaf), ("hidden_tabs", FieldKind::Leaf), ("calendar", FieldKind::Sub(SchemaId::CalendarTab)), ("shortcuts", FieldKind::Array(SchemaId::Shortcut))];
    assert(fields_view(r@) =~= schema_fields(SchemaId::ControlCenter));
    r
}

fn fields_plugin_source() -> (r: Vec<(&'static str, FieldKind)>)
    ensures
        fields_view(r@) == schema_fields(SchemaId::PluginSource),
{
    let r: Vec<(&'static str, FieldKind)> = vec![("name", FieldKind::Leaf), ("kind", FieldKind::Leaf), ("location", FieldKind::Leaf)];
    assert(fields_view(r@) =~= schema_fields(SchemaId::PluginSource));
    r
}

fn fields_plugins() -> (r: Vec<(&'static str, FieldKind)>)
    ensures
        fields_view(r@) == schema_fields(SchemaId::Plugins),
{
    let r: Vec<(&'static str, FieldKind)> = vec![("source", FieldKind::Array(SchemaId::PluginSource)), ("enabled", FieldKind::Leaf), ("auto_update", FieldKind::Leaf)];
    assert(fields_view(r@) =~= schema_fields(SchemaId::Plugins));
    r
}

fn fields_calendar_account() -> (r: Vec<(&'static str, FieldKind)>)
    ensures
        fields_view(r@) == schema_fields(SchemaId::CalendarAccount),
{
    let r: Vec<(&'static str, FieldKind)> = vec![("type", FieldKind::Leaf), ("name", FieldKind::Leaf), ("color", FieldKind::Leaf), ("provider", FieldKind::Leaf), ("server_url", FieldKind::Leaf), ("username", FieldKind::Leaf), ("enabled_calendars", FieldKind::Leaf), ("credential_source", FieldKind::Leaf), ("password_file", FieldKind::Leaf), ("", FieldKind::Leaf)];
    assert(fields_view(r@) =~= schema_fields(SchemaId::CalendarAccount));
    r
}

fn fields_calendar() -> (r: Vec<(&'static str, FieldKind)>)
    ensures
        fields_view(r@) == schema_fields(SchemaId::Calendar),
{
    let r: Vec<(&'static str, FieldKind)> = vec![("enabled", FieldKind::Leaf), ("refresh_minutes", FieldKind::Leaf), ("account", FieldKind::Named(SchemaId::CalendarAccount))];
    assert(fields_view(r@) =~= schema_fields(SchemaId::Calendar));
    r
}

fn fields_keybinds() -> (r: Vec<(&'static str, FieldKind)>)
    ensures
        fields_view(r@) == schema_fields(SchemaId::Keybinds),
{
    let r: Vec<(&'static str, FieldKind)> = vec![("validate", FieldKind::Leaf), ("cancel", FieldKind::Leaf), ("left", FieldKind::Leaf), ("right", FieldKind::Leaf), ("up", FieldKind::Leaf), ("down", FieldKind::Leaf), ("tab_next", FieldKind::Leaf), ("tab_previous", FieldKind::Leaf)];
    assert(fields_view(r@) =~= schema_fields(SchemaId::Keybinds));
    r
}

fn fields_hooks() -> (r: Vec<(&'static str, FieldKind)>)
    ensures
        fields_view(r@) == schema_fields(SchemaId::Hooks),
{
    let r: Vec<(&'static str, FieldKind)> = vec![("started", FieldKind::Leaf), ("wallpaper_changed", FieldKind::Leaf), ("colors_changed", FieldKind::Leaf), ("theme_mode_changed", FieldKind::Leaf), ("session_locked", FieldKind::Leaf), ("session_unlocked", FieldKind::Leaf), ("logging_out", FieldKind::Leaf), ("rebooting", FieldKind::Leaf), ("shutting_down", FieldKind::Leaf), ("wifi_enabled", FieldKind::Leaf), ("wifi_disabled", FieldKind::Leaf), ("bluetooth_enabled", FieldKind::Leaf), ("bluetooth_disabled", FieldKind::Leaf), ("battery_charging", FieldKind::Leaf), ("battery_discharging", FieldKind::Leaf), ("battery_plugged", FieldKind::Leaf), ("battery_percentage_changed", FieldKind::Leaf), ("power_profile_changed", FieldKind::Leaf)];
    assert(fields_view(r@) =~= schema_fields(SchemaId::Hooks));
    r
}

fn fields_idle_behavior() -> (r: Vec<(&'static str, FieldKind)>)
    ensures
        fields_view(r@) == schema_fields(SchemaId::IdleBehavior),
{
    let r: Vec<(&'static str, FieldKind)> = vec![("name", FieldKind::Leaf), ("enabled", FieldKind::Leaf), ("timeout", FieldKind::Leaf), ("action", FieldKind::Leaf), ("command", FieldKind::Leaf), ("resume_command", FieldKind::Leaf), ("lock_before_suspend", FieldKind::Leaf)];
    assert(fields_view(r@) =~= schema_fields(SchemaId::IdleBehavior));
    r
}

fn fields_idle() -> (r: Vec<(&'static str, FieldKind)>)
    ensures
        fields_view(r@) == schema_fields(SchemaId::Idle),
{
    let r: Vec<(&'static str, FieldKind)> = vec![("pre_action_fade_seconds", FieldKind::Leaf), ("behavior", FieldKind::Array(SchemaId::IdleBehavior))];
    assert(fields_view(r@) =~= schema_fields(SchemaId::Idle));
    r
}

fn fields_wallpaper_automation() -> (r: Vec<(&'static str, FieldKind)>)
    ensures
        fields_view(r@) == schema_fields(SchemaId::WallpaperAutomation),
{
    let r: Vec<(&'static str, FieldKind)> = vec![("enabled", FieldKind::Leaf), ("interval_seconds", FieldKind::Leaf), ("order", FieldKind::Leaf), ("recursive", FieldKind::Leaf)];
    assert(fields_view(r@) =~= schema_fields(SchemaId::WallpaperAutomation));
    r
}

fn fields_wallpaper_monitor() -> (r: Vec<(&'static str, FieldKind)>)
    ensures
        fields_view(r@) == schema_fields(SchemaId::WallpaperMonitor),
{
    let r: Vec<(&'static str, FieldKind)> = vec![("match", FieldKind::Leaf), ("enabled", FieldKind::Leaf), ("fill_color", FieldKind::Leaf), ("directory", FieldKind::Leaf), ("directory_light", FieldKind::Leaf), ("directory_dark", FieldKind::Leaf)];
    assert(fields_view(r@) =~= schema_fields(SchemaId::WallpaperMonitor));
    r
}

fn fields_wallpaper() -> (r: Vec<(&'static str, FieldKind)>)
    ensures
        fields_view(r@) == schema_fields(SchemaId::Wallpaper),
{
    let r: Vec<(&'static str, FieldKind)> = vec![("enabled", FieldKind::Leaf), ("fill_mode", FieldKind::Leaf), ("fill_color", FieldKind::Leaf), ("transition", FieldKind::Leaf), ("transition_duration", FieldKind::Leaf), ("edge_smoothness", FieldKind::Leaf), ("transition_on_startup", FieldKind::Leaf), ("directory", FieldKind::Leaf), ("directory_light", FieldKind::Leaf), ("directory_dark", FieldKind::Leaf), ("per_monitor_directories", FieldKind::Leaf), ("automation", FieldKind::Sub(SchemaId::WallpaperAutomation)), ("monitor", FieldKind::Named(SchemaId::WallpaperMonitor))];
    assert(fields_view(r@) =~= schema_fields(SchemaId::Wallpaper));
    r
}

fn fields_user_template() -> (r: Vec<(&'static str, FieldKind)>)
    ensures
        fields_view(r@) == schema_fields(SchemaId::UserTemplate),
{
    let r: Vec<(&'static str, FieldKind)> = vec![("name", FieldKind::Leaf), ("enabled", FieldKind::Leaf), ("input_path", FieldKind::Leaf), ("input_path_modes", FieldKind::Leaf), ("output_path", FieldKind::Leaf), ("dynamic_template", FieldKind::Leaf), ("compare_mode", FieldKind::Leaf), ("compare_colors", FieldKind::Leaf), ("pre_command", FieldKind::Leaf), ("post_command", FieldKind::Leaf), ("palette_export_kind", FieldKind::Leaf), ("palette_export_variant_index", FieldKind::Leaf)];
    assert(fields_view(r@) =~= schema_fields(SchemaId::UserTemplate));
    r
}

fn fields_templates() -> (r: Vec<(&'static str, FieldKind)>)
    ensures
        fields_view(r@) == schema_fields(SchemaId::Templates),
{
    let r: Vec<(&'static str, FieldKind)> = vec![("enable_builtin_templates", FieldKind::Leaf), ("builtin_ids", FieldKind::Leaf), ("enable_community_templates", FieldKind::Leaf), ("community_ids", FieldKind::Leaf), ("custom_colors", FieldKind::Leaf), ("user", FieldKind::Named(SchemaId::UserTemplate))];
    assert(fields_view(r@) =~= schema_fields(SchemaId::Templates));
    r
}

fn fields_theme() -> (r: Vec<(&'static str, FieldKind)>)
    ensures
        fields_view(r@) == schema_fields(SchemaId::Theme),
{
    let r: Vec<(&'static str, FieldKind)> = vec![("source", FieldKind::Leaf), ("builtin", FieldKind::Leaf), ("community_palette", FieldKind::Leaf), ("custom_palette", FieldKind::Leaf), ("wallpaper_scheme", FieldKind::Leaf), ("mode", FieldKind::Leaf), ("pure_black_dark", FieldKind::Leaf), ("templates", FieldKind::Sub(SchemaId::Templates))];
    assert(fields_view(r@) =~= schema_fields(SchemaId::Theme));
    r
}

fn fields_shell_animation() -> (r: Vec<(&'static str, FieldKind)>)
    ensures
        fields_view(r@) == schema_fields(SchemaId::ShellAnimation),
{
    let r: Vec<(&'static str, FieldKind)> = vec![("enabled", FieldKind::Leaf), ("speed", FieldKind::Leaf)];
    assert(fields_view(r@) =~= schema_fields(SchemaId::ShellAnimation));
    r
}

fn fields_shell_shadow() -> (r: Vec<(&'static str, FieldKind)>)
    ensures
        fields_view(r@) == schema_fields(SchemaId::ShellShadow),
{
    let r: Vec<(&'static str, FieldKind)> = vec![("direction", FieldKind::Leaf), ("alpha", FieldKind::Leaf)];
    assert(fields_view(r@) =~= schema_fields(SchemaId::ShellShadow));
    r
}

fn fields_dmenu_entry() -> (r: Vec<(&'static str, FieldKind)>)
    ensures
        fields_view(r@) == schema_fields(SchemaId::DmenuEntry),
{
    let r: Vec<(&'static str, FieldKind)> = vec![("id", FieldKind::Leaf), ("exec", FieldKind::Leaf), ("prefix", FieldKind::Leaf), ("label", FieldKind::Leaf), ("glyph", FieldKind::Leaf), ("freeform", FieldKind::Leaf)];
    assert(fields_view(r@) =~= schema_fields(SchemaId::DmenuEntry));
    r
}

fn fields_shell_launcher_dmenu() -> (r: Vec<(&'static str, FieldKind)>)
    ensures
        fields_view(r@) == schema_fields(SchemaId::ShellLauncherDmenu),
{
    let r: Vec<(&'static str, FieldKind)> = vec![("entries", FieldKind::Array(SchemaId::DmenuEntry))];
    assert(fields_view(r@) =~= schema_fields(SchemaId::ShellLauncherDmenu));
    r
}

fn fields_shell_panel() -> (r: Vec<(&'static str, FieldKind)>)
    ensures
        fields_view(r@) == schema_fields(SchemaId::ShellPanel),
{
    let r: Vec<(&'static str, FieldKind)> = vec![("transparency_mode", FieldKind::Leaf), ("borders", FieldKind::Leaf), ("shadow", FieldKind::Leaf), ("list_item_background", FieldKind::Leaf), ("launcher_placement", FieldKind::Leaf), ("clipboard_placement", FieldKind::Leaf), ("control_center_placement", FieldKind::Leaf), ("wallpaper_placement", FieldKind::Leaf), ("session_placement", FieldKind::Leaf), ("polkit_placement", FieldKind::Leaf), ("launcher_position", FieldKind::Leaf), ("clipboard_position", FieldKind::Leaf), ("control_center_position", FieldKind::Leaf), ("wallpaper_position", FieldKind::Leaf), ("session_position", FieldKind::Leaf), ("polkit_position", FieldKind::Leaf), ("floating_offset", FieldKind::Leaf), ("open_near_click_control_center", FieldKind::Leaf), ("open_near_click_launcher", FieldKind::Leaf), ("open_near_click_clipboard", FieldKind::Leaf), ("open_near_click_wallpaper", FieldKind::Leaf), ("open_near_click_session", FieldKind::Leaf)];
    assert(fields_view(r@) =~= schema_fields(SchemaId::ShellPanel));
    r
}

fn fields_launcher_provider() -> (r: Vec<(&'static str, FieldKind)>)
    ensures
        fields_view(r@) == schema_fields(SchemaId::LauncherProvider),
{
    let r: Vec<(&'static str, FieldKind)> = vec![("prefix", FieldKind::Leaf), ("global", FieldKind::Leaf)];
    assert(fields_view(r@) =~= schema_fields(SchemaId::LauncherProvider));
    r
}

fn fields_shell_launcher() -> (r: Vec<(&'static str, FieldKind)>)
    ensures
        fields_view(r@) == schema_fields(SchemaId::ShellLauncher),
{
    let r: Vec<(&'static str, FieldKind)> = vec![("categories", FieldKind::Leaf), ("show_icons", FieldKind::Leaf), ("compact", FieldKind::Leaf), ("app_grid", FieldKind::Leaf), ("sort_by_usage", FieldKind::Leaf), ("fetch_exchange_rates", FieldKind::Leaf), ("provider_prefix", FieldKind::Leaf), ("auto_paste", FieldKind::Leaf), ("dmenu", FieldKind::Sub(SchemaId::ShellLauncherDmenu)), ("providers", FieldKind::Named(SchemaId::LauncherProvider))];
    assert(fields_view(r@) =~= schema_fields(SchemaId::ShellLauncher));
    r
}

fn fields_shell_screen_corners() -> (r: Vec<(&'static str, FieldKind)>)
    ensures
        fields_view(r@) == schema_fields(SchemaId::ShellScreenCorners),
{
    let r: Vec<(&'static str, FieldKind)> = vec![("enabled", FieldKind::Leaf), ("size", FieldKind::Leaf)];
    assert(fields_view(r@) =~= schema_fields(SchemaId::ShellScreenCorners));
    r
}

fn fields_shell_mpris() -> (r: Vec<(&'static str, FieldKind)>)
    ensures
        fields_view(r@) == schema_fields(SchemaId::ShellMpris),
{
    let r: Vec<(&'static str, FieldKind)> = vec![("blacklist", FieldKind::Leaf)];
    assert(fields_view(r@) =~= schema_fields(SchemaId::ShellMpris));
    r
}

fn fields_shell_screenshot() -> (r: Vec<(&'static str, FieldKind)>)
    ensures
        fields_view(r@) == schema_fields(SchemaId::ShellScreenshot),
{
    let r: Vec<(&'static str, FieldKind)> = vec![("directory", FieldKind::Leaf), ("pipe_to_command", FieldKind::Leaf)];
    assert(fields_view(r@) =~= schema_fields(SchemaId::ShellScreenshot));
    r
}

fn fields_shell_privacy() -> (r: Vec<(&'static str, FieldKind)>)
    ensures
        fields_view(r@) == schema_fields(SchemaId::ShellPrivacy),
{
    let r: Vec<(&'static str, FieldKind)> = vec![("mic_filter_regex", FieldKind::Leaf), ("cam_filter_regex", FieldKind::Leaf), ("screen_filter_regex", FieldKind::Leaf)];
    assert(fields_view(r@) =~= schema_fields(SchemaId::ShellPrivacy));
    r
}

fn fields_session_action() -> (r: Vec<(&'static str, FieldKind)>)
    ensures
        fields_view(r@) == schema_fields(SchemaId::SessionAction),
{
    let r: Vec<(&'static str, FieldKind)> = vec![("action", FieldKind::Leaf), ("enabled", FieldKind::Leaf), ("command", FieldKind::Leaf), ("label", FieldKind::Leaf), ("glyph", FieldKind::Leaf), ("variant", FieldKind::Leaf), ("countdown_seconds", FieldKind::Leaf)];
    assert(fields_view(r@) =~= schema_fields(SchemaId::SessionAction));
    r
}

fn fields_shell_session_power() -> (r: Vec<(&'static str, FieldKind)>)
    ensures
        fields_view(r@) == schema_fields(SchemaId::ShellSessionPower),
{
    let r: Vec<(&'static str, FieldKind)> = vec![("suspend", FieldKind::Leaf), ("reboot", FieldKind::Leaf), ("shutdown", FieldKind::Leaf)];
    assert(fields_view(r@) =~= schema_fields(SchemaId::ShellSessionPower));
    r
}

fn fields_shell_greeter_sync() -> (r: Vec<(&'static str, FieldKind)>)
    ensures
        fields_view(r@) == schema_fields(SchemaId::ShellGreeterSync),
{
    let r: Vec<(&'static str, FieldKind)> = vec![("auto_sync", FieldKind::Leaf), ("privilege_command", FieldKind::Leaf)];
    assert(fields_view(r@) =~= schema_fields(SchemaId::ShellGreeterSync));
    r
}

fn fields_shell_session() -> (r: Vec<(&'static str, FieldKind)>)
    ensures
        fields_view(r@) == schema_fields(SchemaId::ShellSession),
{
    let r: Vec<(&'static str, FieldKind)> = vec![("actions", FieldKind::Array(SchemaId::SessionAction)), ("power", FieldKind::Sub(SchemaId::ShellSessionPower))];
    assert(fields_view(r@) =~= schema_fields(SchemaId::ShellSession));
    r
}

fn fields_shell() -> (r: Vec<(&'static str, FieldKind)>)
    ensures
        fields_view(r@) == schema_fields(SchemaId::Shell),
{
    let r: Vec<(&'static str, FieldKind)> = vec![("corner_radius_scale", FieldKind::Leaf), ("button_borders", FieldKind::Leaf), ("input_borders", FieldKind::Leaf), ("popup_borders", FieldKind::Leaf), ("popup_shadows", FieldKind::Leaf), ("card_borders", FieldKind::Leaf), ("font_family", FieldKind::Leaf), ("lang", FieldKind::Leaf), ("time_format", FieldKind::Leaf), ("date_format", FieldKind::Leaf), ("offline_mode", FieldKind::Leaf), ("panel_anchor_bar", FieldKind::Leaf), ("external_ip_enabled", FieldKind::Leaf), ("telemetry_enabled", FieldKind::Leaf), ("setup_wizard_enabled", FieldKind::Leaf), ("niri_overview_type_to_launch_enabled", FieldKind::Leaf), ("polkit_agent", FieldKind::Leaf), ("password_style", FieldKind::Leaf), ("settings_show_advanced", FieldKind::Leaf), ("show_location", FieldKind::Leaf), ("app_icon_colorize", FieldKind::Leaf), ("app_icon_color", FieldKind::Leaf), ("launch_apps_as_systemd_services", FieldKind::Leaf), ("launch_apps_custom_command", FieldKind::Leaf), ("clipboard_enabled", FieldKind::Leaf), ("clipboard_keep_from_closed_apps", FieldKind::Leaf), ("clipboard_history_max_entries", FieldKind::Leaf), ("clipboard_confirm_clear_history", FieldKind::Leaf), ("screen_time_enabled", FieldKind::Leaf), ("shared_gl_context", FieldKind::Leaf), ("disable_mipmaps", FieldKind::Leaf), ("clipboard_auto_paste", FieldKind::Leaf), ("clipboard_image_action_command", FieldKind::Leaf), ("avatar_path", FieldKind::Leaf), ("animation", FieldKind::Sub(SchemaId::ShellAnimation)), ("shadow", FieldKind::Sub(SchemaId::ShellShadow)), ("panel", FieldKind::Sub(SchemaId::ShellPanel)), ("launcher", FieldKind::Sub(SchemaId::ShellLauncher)), ("screen_corners", FieldKind::Sub(SchemaId::ShellScreenCorners)), ("mpris", FieldKind::Sub(SchemaId::ShellMpris)), ("screenshot", FieldKind::Sub(SchemaId::ShellScreenshot)), ("privacy", FieldKind::Sub(SchemaId::ShellPrivacy)), ("session", FieldKind::Sub(SchemaId::ShellSession)), ("greeter_sync", FieldKind::Sub(SchemaId::ShellGreeterSync))];
    assert(fields_view(r@) =~= schema_fields(SchemaId::Shell));
    r
}

fn fields_accessibility() -> (r: Vec<(&'static str, FieldKind)>)
    ensures
        fields_view(r@) == schema_fields(SchemaId::Accessibility),
{
    let r: Vec<(&'static str, FieldKind)> = vec![("ui_scale", FieldKind::Leaf), ("high_contrast", FieldKind::Leaf)];
    assert(fields_view(r@) =~= schema_fields(SchemaId::Accessibility));
    r
}

fn fields_storage() -> (r: Vec<(&'static str, FieldKind)>)
    ensures
        fields_view(r@) == schema_fields(SchemaId::Storage),
{
    let r: Vec<(&'static str, FieldKind)> = vec![("key_source", FieldKind::Leaf), ("key_file", FieldKind::Leaf), ("", FieldKind::Leaf)];
    assert(fields_view(r@) =~= schema_fields(SchemaId::Storage));
    r
}

fn fields_bar_capsule_group() -> (r: Vec<(&'static str, FieldKind)>)
    ensures
        fields_view(r@) == schema_fields(SchemaId::BarCapsuleGroup),
{
    let r: Vec<(&'static str, FieldKind)> = vec![("id", FieldKind::Leaf), ("enabled", FieldKind::Leaf), ("members", FieldKind::Leaf), ("fill", FieldKind::Leaf), ("border", FieldKind::Leaf), ("foreground", FieldKind::Leaf), ("padding", FieldKind::Leaf), ("radius", FieldKind::Leaf), ("opacity", FieldKind::Leaf)];
    assert(fields_view(r@) =~= schema_fields(SchemaId::BarCapsuleGroup));
    r
}

fn fields_bar_dead_zone() -> (r: Vec<(&'static str, FieldKind)>)
    ensures
        fields_view(r@) == schema_fields(SchemaId::BarDeadZone),
{
    let r: Vec<(&'static str, FieldKind)> = vec![("actions", FieldKind::Leaf)];
    assert(fields_view(r@) =~= schema_fields(SchemaId::BarDeadZone));
    r
}

fn fields_bar_dead_zone_override() -> (r: Vec<(&'static str, FieldKind)>)
    ensures
        fields_view(r@) == schema_fields(SchemaId::BarDeadZoneOverride),
{
    let r: Vec<(&'static str, FieldKind)> = vec![("actions", FieldKind::Leaf)];
    assert(fields_view(r@) =~= schema_fields(SchemaId::BarDeadZoneOverride));
    r
}

fn fields_bar_fields() -> (r: Vec<(&'static str, FieldKind)>)
    ensures
        fields_view(r@) == schema_fields(SchemaId::BarFields),
{
    let r: Vec<(&'static str, FieldKind)> = vec![("enabled", FieldKind::Leaf), ("auto_hide", FieldKind::Leaf), ("smart_auto_hide", FieldKind::Leaf), ("show_on_workspace_switch", FieldKind::Leaf), ("reserve_space", FieldKind::Leaf), ("layer", FieldKind::Leaf), ("thickness", FieldKind::Leaf), ("background_opacity", FieldKind::Leaf), ("border", FieldKind::Leaf), ("border_width", FieldKind::Leaf), ("radius", FieldKind::Leaf), ("radius_top_left", FieldKind::Leaf), ("radius_top_right", FieldKind::Leaf), ("radius_bottom_left", FieldKind::Leaf), ("radius_bottom_right", FieldKind::Leaf), ("concave_edge_corners", FieldKind::Leaf), ("margin_ends", FieldKind::Leaf), ("margin_edge", FieldKind::Leaf), ("margin_opposite_edge", FieldKind::Leaf), ("padding", FieldKind::Leaf), ("widget_spacing", FieldKind::Leaf), ("shadow", FieldKind::Leaf), ("contact_shadow", FieldKind::Leaf), ("panel_overlap", FieldKind::Leaf), ("capsule_thickness", FieldKind::Leaf), ("scale", FieldKind::Leaf), ("font_weight", FieldKind::Leaf), ("font_family", FieldKind::Leaf), ("start", FieldKind::Leaf), ("center", FieldKind::Leaf), ("end", FieldKind::Leaf), ("capsule", FieldKind::Leaf), ("capsule_fill", FieldKind::Leaf), ("capsule_foreground", FieldKind::Leaf), ("color", FieldKind::Leaf), ("icon_color", FieldKind::Leaf), ("capsule_group", FieldKind::Array(SchemaId::BarCapsuleGroup)), ("capsule_padding", FieldKind::Leaf), ("capsule_radius", FieldKind::Leaf), ("capsule_opacity", FieldKind::Leaf), ("capsule_border", FieldKind::Leaf), ("hover_highlight", FieldKind::Leaf), ("dead_zone", FieldKind::Sub(SchemaId::BarDeadZone)), ("actions", FieldKind::Leaf)];
    assert(fields_view(r@) =~= schema_fields(SchemaId::BarFields));
    r
}

fn fields_bar_monitor_override() -> (r: Vec<(&'static str, FieldKind)>)
    ensures
        fields_view(r@) == schema_fields(SchemaId::BarMonitorOverride),
{
    let r: Vec<(&'static str, FieldKind)> = vec![("match", FieldKind::Leaf), ("position", FieldKind::Leaf), ("enabled", FieldKind::Leaf), ("auto_hide", FieldKind::Leaf), ("smart_auto_hide", FieldKind::Leaf), ("show_on_workspace_switch", FieldKind::Leaf), ("reserve_space", FieldKind::Leaf), ("layer", FieldKind::Leaf), ("thickness", FieldKind::Leaf), ("background_opacity", FieldKind::Leaf), ("border", FieldKind::Leaf), ("border_width", FieldKind::Leaf), ("radius", FieldKind::Leaf), ("radius_top_left", FieldKind::Leaf), ("radius_top_right", FieldKind::Leaf), ("radius_bottom_left", FieldKind::Leaf), ("radius_bottom_right", FieldKind::Leaf), ("concave_edge_corners", FieldKind::Leaf), ("margin_ends", FieldKind::Leaf), ("margin_edge", FieldKind::Leaf), ("margin_opposite_edge", FieldKind::Leaf), ("padding", FieldKind::Leaf), ("widget_spacing", FieldKind::Leaf), ("scale", FieldKind::Leaf), ("shadow", FieldKind::Leaf), ("contact_shadow", FieldKind::Leaf), ("panel_overlap", FieldKind::Leaf), ("capsule_thickness", FieldKind::Leaf), ("font_family", FieldKind::Leaf), ("start", FieldKind::Leaf), ("center", FieldKind::Leaf), ("end", FieldKind::Leaf), ("capsule", FieldKind::Leaf), ("capsule_fill", FieldKind::Leaf), ("capsule_foreground", FieldKind::Leaf), ("color", FieldKind::Leaf), ("icon_color", FieldKind::Leaf), ("capsule_padding", FieldKind::Leaf), ("capsule_radius", FieldKind::Leaf), ("capsule_opacity", FieldKind::Leaf), ("capsule_border", FieldKind::Leaf), ("hover_highlight", FieldKind::Leaf), ("capsule_group", FieldKind::Leaf), ("dead_zone", FieldKind::Sub(SchemaId::BarDeadZoneOverride))];
    assert(fields_view(r@) =~= schema_fields(SchemaId::BarMonitorOverride));
    r
}

/// The fields of the schema `id`.
pub fn field_list(id: SchemaId) -> (r: Vec<(&'static str, FieldKind)>)
    ensures
        fields_view(r@) == schema_fields(id),
{
    match id {
        SchemaId::Audio => fields_audio(),
        SchemaId::Weather => fields_weather(),
        SchemaId::OsdKinds => fields_osd_kinds(),
        SchemaId::Osd => fields_osd(),
        SchemaId::Backdrop => fields_backdrop(),
        SchemaId::Lockscreen => fields_lockscreen(),
        SchemaId::SystemMonitor => fields_system_monitor(),
        SchemaId::System => fields_system(),
        SchemaId::Nightlight => fields_nightlight(),
        SchemaId::Location => fields_location(),
        SchemaId::NotificationFilter => fields_notification_filter(),
        SchemaId::Notification => fields_notification(),
        SchemaId::Dock => fields_dock(),
        SchemaId::DesktopWidgetsGrid => fields_desktop_widgets_grid(),
        SchemaId::DesktopWidgets => fields_desktop_widgets(),
        SchemaId::LockscreenWidgets => fields_lockscreen_widgets(),
        SchemaId::Corner => fields_corner(),
        SchemaId::HotCorners => fields_hot_corners(),
        SchemaId::BrightnessMonitor => fields_brightness_monitor(),
        SchemaId::Brightness => fields_brightness(),
        SchemaId::BatteryDevice => fields_battery_device(),
        SchemaId::Battery => fields_battery(),
        SchemaId::Shortcut => fields_shortcut(),
        SchemaId::CalendarTab => fields_calendar_tab(),
        SchemaId::ControlCenter => fields_control_center(),
        SchemaId::PluginSource => fields_plugin_source(),
        SchemaId::Plugins => fields_plugins(),
        SchemaId::CalendarAccount => fields_calendar_account(),
        SchemaId::Calendar => fields_calendar(),
        SchemaId::Keybinds => fields_keybinds(),
        SchemaId::Hooks => fields_hooks(),
        SchemaId::IdleBehavior => fields_idle_behavior(),
        SchemaId::Idle => fields_idle(),
        SchemaId::WallpaperAutomation => fields_wallpaper_automation(),
        SchemaId::WallpaperMonitor => fields_wallpaper_monitor(),
        SchemaId::Wallpaper => fields_wallpaper(),
        SchemaId::UserTemplate => fields_user_template(),
        SchemaId::Templates => fields_templates(),
        SchemaId::Theme => fields_theme(),
        SchemaId::ShellAnimation => fields_shell_animation(),
        SchemaId::ShellShadow => fields_shell_shadow(),
        SchemaId::DmenuEntry => fields_dmenu_entry(),
        SchemaId::ShellLauncherDmenu => fields_shell_launcher_dmenu(),
        SchemaId::ShellPanel => fields_shell_panel(),
        SchemaId::LauncherProvider => fields_launcher_provider(),
        SchemaId::ShellLauncher => fields_shell_launcher(),
        SchemaId::ShellScreenCorners => fields_shell_screen_corners(),
        SchemaId::ShellMpris => fields_shell_mpris(),
        SchemaId::ShellScreenshot => fields_shell_screenshot(),
        SchemaId::ShellPrivacy => fields_shell_privacy(),
        SchemaId::SessionAction => fields_session_action(),
        SchemaId::ShellSessionPower => fields_shell_session_power(),
        SchemaId::ShellGreeterSync => fields_shell_greeter_sync(),
        SchemaId::ShellSession => fields_shell_session(),
        SchemaId::Shell => fields_shell(),
        SchemaId::Accessibility => fields_accessibility(),
        SchemaId::Storage => fields_storage(),
        SchemaId::BarCapsuleGroup => fields_bar_capsule_group(),
        SchemaId::BarDeadZone => fields_bar_dead_zone(),
        SchemaId::BarDeadZoneOverride => fields_bar_dead_zone_override(),
        SchemaId::BarFields => fields_bar_fields(),
        SchemaId::BarMonitorOverride => fields_bar_monitor_override(),
    }
}

/// The texts of a list of strings.
pub open spec fn strs_of(v: Seq<String>) -> Seq<Seq<char>> {
    v.map_values(|s: String| s@)
}

/// The dotted paths, under `parent`, of the first `n` keys of `t` that are
/// not in `known`, in table order.
pub open spec fn unknown_keys(t: TableData, known: Seq<Seq<char>>, parent: Seq<char>, n: int) -> Seq<Seq<char>>
    decreases n,
{
    if n <= 0 || n > t.len() {
        Seq::empty()
    } else {
        unknown_keys(t, known, parent, n - 1) + if known.contains(t[n - 1].0) {
            Seq::empty()
        } else {
            seq![spec_join_path(parent, t[n - 1].0)]
        }
    }
}

/// The keys of a list of fields.
pub open spec fn field_keys(fs: Seq<(Seq<char>, FieldKind)>) -> Seq<Seq<char>> {
    fs.map_values(|f: (Seq<char>, FieldKind)| f.0)
}

/// How deep the search below a table goes: deeper than any schema nests.
pub const SEARCH_DEPTH: u8 = 6u8;

/// The dotted paths, under `parent`, of the keys in `t` and in the tables
/// below it that the schema `id` does not know: first `t`'s own unknown keys
/// in table order, then, field by field in schema order, those of the
/// nested tables (named tables in map order, array items in array order).
/// The search stops `fuel` levels down.
pub open spec fn unknown_paths(t: TableData, id: SchemaId, parent: Seq<char>, fuel: nat) -> Seq<Seq<char>>
    decreases fuel, 2int, 0int,
{
    if fuel == 0 {
        Seq::empty()
    } else {
        let fs = schema_fields(id);
        unknown_keys(t, field_keys(fs), parent, t.len() as int)
            + nested_unknown(t, fs, parent, fuel, fs.len() as int)
    }
}

/// The unknown paths below the nested tables of the first `n` fields of `fs`.
pub open spec fn nested_unknown(t: TableData, fs: Seq<(Seq<char>, FieldKind)>, parent: Seq<char>, fuel: nat, n: int) -> Seq<Seq<char>>
    decreases fuel, 1int, n,
{
    if fuel == 0 || n <= 0 || n > fs.len() {
        Seq::empty()
    } else {
        let key = fs[n - 1].0;
        let below = spec_join_path(parent, key);
        nested_unknown(t, fs, parent, fuel, n - 1) + match fs[n - 1].1 {
            FieldKind::Leaf => Seq::empty(),
            FieldKind::Sub(c) => match lookup(t, key) {
                Some(TomlData::Table(sub)) => unknown_paths(sub, c, below, (fuel - 1) as nat),
                _ => Seq::empty(),
            },
            FieldKind::Named(c) => match lookup(t, key) {
                Some(TomlData::Table(map)) => named_unknown(map, c, below, fuel, map.len() as int),
                _ => Seq::empty(),
            },
            FieldKind::Array(c) => match lookup(t, key) {
                Some(TomlData::Array(items)) => items_unknown(items, c, below, fuel, items.len() as int),
                _ => Seq::empty(),
            },
        }
    }
}

/// The unknown paths of the tables among the first `n` entries of a map of named tables.
pub open spec fn named_unknown(map: TableData, c: SchemaId, parent: Seq<char>, fuel: nat, n: int) -> Seq<Seq<char>>
    decreases fuel, 0int, n,
{
    if fuel == 0 || n <= 0 || n > map.len() {
        Seq::empty()
    } else {
        named_unknown(map, c, parent, fuel, n - 1) + match map[n - 1].1 {
            TomlData::Table(sub) => unknown_paths(sub, c, spec_join_path(parent, map[n - 1].0), (fuel - 1) as nat),
            _ => Seq::empty(),
        }
    }
}

/// The unknown paths of the tables among the first `n` items of an array.
pub open spec fn items_unknown(items: Seq<TomlData>, c: SchemaId, parent: Seq<char>, fuel: nat, n: int) -> Seq<Seq<char>>
    decreases fuel, 0int, n,
{
    if fuel == 0 || n <= 0 || n > items.len() {
        Seq::empty()
    } else {
        items_unknown(items, c, parent, fuel, n - 1) + match items[n - 1] {
            TomlData::Table(sub) => unknown_paths(sub, c, parent, (fuel - 1) as nat),
            _ => Seq::empty(),
        }
    }
}

fn known_key(fs: &Vec<(&'static str, FieldKind)>, key: &str) -> (r: bool)
    ensures
        r == field_keys(fields_view(fs@)).contains(key@),
{
    let ghost keys = field_keys(fields_view(fs@));
    let mut i: usize = 0;
    while i < fs.len()
        invariant
            keys == field_keys(fields_view(fs@)),
            keys.len() == fs@.len(),
            0 <= i <= fs.len(),
            forall|k: int| 0 <= k < i ==> keys[k] != key@,
        decreases fs.len() - i,
    {
        if str_equal(fs[i].0, key) {
            assert(keys[i as int] == key@);
            return true;
        }
        i += 1;
    }
    false
}

fn push_unknown_keys(t: &TomlTable, fs: &Vec<(&'static str, FieldKind)>, parent: &str, out: &mut Vec<String>)
    ensures
        strs_of(final(out)@) == strs_of(old(out)@) + unknown_keys(t@, field_keys(fields_view(fs@)), parent@, t@.len() as int),
{
    let ghost o0 = strs_of(out@);
    let ghost known = field_keys(fields_view(fs@));
    let n = t.len();
    let mut i: usize = 0;
    while i < n
        invariant
            n == t@.len(),
            known == field_keys(fields_view(fs@)),
            0 <= i <= n,
            strs_of(out@) == o0 + unknown_keys(t@, known, parent@, i as int),
        decreases n - i,
    {
        let key = t.key_at(i);
        let ghost before = out@;
        if !known_key(fs, key) {
            let p = join_path(parent, key);
            out.push(p);
            assert(strs_of(out@) =~= strs_of(before).push(spec_join_path(parent@, key@)));
        }
        assert(strs_of(out@) =~= o0 + unknown_keys(t@, known, parent@, i as int + 1));
        i += 1;
    }
}

/// Appends to `out` the paths of [`unknown_paths`] for `t` under `parent`.
pub fn collect_unknown_keys(t: &TomlTable, id: SchemaId, parent: &str, fuel: u8, out: &mut Vec<String>)
    ensures
        strs_of(final(out)@) == strs_of(old(out)@) + unknown_paths(t@, id, parent@, fuel as nat),
    decreases fuel, 2int, 0int,
{
    if fuel == 0 {
        assert(strs_of(out@) =~= strs_of(old(out)@) + Seq::<Seq<char>>::empty());
        return;
    }
    let fs = field_list(id);
    push_unknown_keys(t, &fs, parent, out);
    push_nested_unknown(t, &fs, parent, fuel, out);
    assert(strs_of(out@) =~= strs_of(old(out)@) + unknown_paths(t@, id, parent@, fuel as nat));
}

fn push_nested_unknown(t: &TomlTable, fs: &Vec<(&'static str, FieldKind)>, parent: &str, fuel: u8, out: &mut Vec<String>)
    requires
        fuel > 0,
    ensures
        strs_of(final(out)@) == strs_of(old(out)@) + nested_unknown(t@, fields_view(fs@), parent@, fuel as nat, fs@.len() as int),
    decreases fuel, 1int, fs@.len(),
{
    let ghost o0 = strs_of(out@);
    let ghost fv = fields_view(fs@);
    let mut i: usize = 0;
    while i < fs.len()
        invariant
            fv == fields_view(fs@),
            fv.len() == fs@.len(),
            fuel > 0,
            0 <= i <= fs.len(),
            strs_of(out@) == o0 + nested_unknown(t@, fv, parent@, fuel as nat, i as int),
        decreases fs.len() - i,
    {
        let key = fs[i].0;
        let kind = fs[i].1;
        let ghost before = strs_of(out@);
        assert(fv[i as int] == (key@, kind));
        match kind {
            FieldKind::Leaf => {},
            FieldKind::Sub(c) => {
                match t.get(key) {
                    Some(TomlValue::Table(sub)) => {
                        let below = join_path(parent, key);
                        collect_unknown_keys(sub, c, below.as_str(), fuel - 1, out);
                    },
                    _ => {},
                }
            },
            FieldKind::Named(c) => {
                match t.get(key) {
                    Some(TomlValue::Table(map)) => {
                        let below = join_path(parent, key);
                        push_named_unknown(map, c, below.as_str(), fuel, out);
                    },
                    _ => {},
                }
            },
            FieldKind::Array(c) => {
                match t.get(key) {
                    Some(TomlValue::Array(items)) => {
                        proof { lemma_items_data(items@, items@.len() as int); }
                        let below = join_path(parent, key);
                        push_items_unknown(items, c, below.as_str(), fuel, out);
                    },
                    _ => {},
                }
            },
        }
        assert(strs_of(out@) =~= o0 + nested_unknown(t@, fv, parent@, fuel as nat, i as int + 1));
        i += 1;
    }
}

fn push_named_unknown(map: &TomlTable, c: SchemaId, parent: &str, fuel: u8, out: &mut Vec<String>)
    requires
        fuel > 0,
    ensures
        strs_of(final(out)@) == strs_of(old(out)@) + named_unknown(map@, c, parent@, fuel as nat, map@.len() as int),
    decreases fuel, 0int, map@.len(),
{
    let ghost o0 = strs_of(out@);
    let n = map.len();
    let mut i: usize = 0;
    while i < n
        invariant
            n == map@.len(),
            fuel > 0,
            0 <= i <= n,
            strs_of(out@) == o0 + named_unknown(map@, c, parent@, fuel as nat, i as int),
        decreases n - i,
    {
        let name = map.key_at(i);
        match map.value_at(i).as_table() {
            Some(sub) => {
                let below = join_path(parent, name);
                collect_unknown_keys(sub, c, below.as_str(), fuel - 1, out);
            },
            None => {},
        }
        assert(strs_of(out@) =~= o0 + named_unknown(map@, c, parent@, fuel as nat, i as int + 1));
        i += 1;
    }
}

fn push_items_unknown(items: &Vec<TomlValue>, c: SchemaId, parent: &str, fuel: u8, out: &mut Vec<String>)
    requires
        fuel > 0,
    ensures
        strs_of(final(out)@) == strs_of(old(out)@)
            + items_unknown(items_data(items@, items@.len() as int), c, parent@, fuel as nat, items@.len() as int),
    decreases fuel, 0int, items@.len(),
{
    proof { lemma_items_data(items@, items@.len() as int); }
    let ghost iv = items_data(items@, items@.len() as int);
    let ghost o0 = strs_of(out@);
    let mut i: usize = 0;
    while i < items.len()
        invariant
            iv == items_data(items@, items@.len() as int),
            iv.len() == items@.len(),
            forall|j: int| 0 <= j < iv.len() ==> #[trigger] iv[j] == items@[j]@,
            fuel > 0,
            0 <= i <= items.len(),
            strs_of(out@) == o0 + items_unknown(iv, c, parent@, fuel as nat, i as int),
        decreases items.len() - i,
    {
        assert(iv[i as int] == items@[i as int]@);
        match items[i].as_table() {
            Some(sub) => {
                collect_unknown_keys(sub, c, parent, fuel - 1, out);
            },
            None => {},
        }
        assert(strs_of(out@) =~= o0 + items_unknown(iv, c, parent@, fuel as nat, i as int + 1));
        i += 1;
    }
}


/// The schema of a section that the path search reads: the registered
/// sections, then `desktop_widgets` and `lockscreen_widgets`.
pub open spec fn section_schema(name: Seq<char>) -> Option<SchemaId> {
    if name == "storage"@ { Some(SchemaId::Storage) }
    else if name == "shell"@ { Some(SchemaId::Shell) }
    else if name == "accessibility"@ { Some(SchemaId::Accessibility) }
    else if name == "wallpaper"@ { Some(SchemaId::Wallpaper) }
    else if name == "theme"@ { Some(SchemaId::Theme) }
    else if name == "backdrop"@ { Some(SchemaId::Backdrop) }
    else if name == "lockscreen"@ { Some(SchemaId::Lockscreen) }
    else if name == "notification"@ { Some(SchemaId::Notification) }
    else if name == "osd"@ { Some(SchemaId::Osd) }
    else if name == "system"@ { Some(SchemaId::System) }
    else if name == "weather"@ { Some(SchemaId::Weather) }
    else if name == "calendar"@ { Some(SchemaId::Calendar) }
    else if name == "audio"@ { Some(SchemaId::Audio) }
    else if name == "brightness"@ { Some(SchemaId::Brightness) }
    else if name == "battery"@ { Some(SchemaId::Battery) }
    else if name == "nightlight"@ { Some(SchemaId::Nightlight) }
    else if name == "location"@ { Some(SchemaId::Location) }
    else if name == "idle"@ { Some(SchemaId::Idle) }
    else if name == "keybinds"@ { Some(SchemaId::Keybinds) }
    else if name == "dock"@ { Some(SchemaId::Dock) }
    else if name == "hot_corners"@ { Some(SchemaId::HotCorners) }
    else if name == "control_center"@ { Some(SchemaId::ControlCenter) }
    else if name == "plugins"@ { Some(SchemaId::Plugins) }
    else if name == "hooks"@ { Some(SchemaId::Hooks) }
    else if name == "desktop_widgets"@ { Some(SchemaId::DesktopWidgets) }
    else if name == "lockscreen_widgets"@ { Some(SchemaId::LockscreenWidgets) }
    else { None }
}

/// The schema of the section `name`, if the path search knows one.
pub fn schema_of_section(name: &str) -> (r: Option<SchemaId>)
    ensures
        r == section_schema(name@),
{
    if str_equal(name, "storage") { Some(SchemaId::Storage) }
    else if str_equal(name, "shell") { Some(SchemaId::Shell) }
    else if str_equal(name, "accessibility") { Some(SchemaId::Accessibility) }
    else if str_equal(name, "wallpaper") { Some(SchemaId::Wallpaper) }
    else if str_equal(name, "theme") { Some(SchemaId::Theme) }
    else if str_equal(name, "backdrop") { Some(SchemaId::Backdrop) }
    else if str_equal(name, "lockscreen") { Some(SchemaId::Lockscreen) }
    else if str_equal(name, "notification") { Some(SchemaId::Notification) }
    else if str_equal(name, "osd") { Some(SchemaId::Osd) }
    else if str_equal(name, "system") { Some(SchemaId::System) }
    else if str_equal(name, "weather") { Some(SchemaId::Weather) }
    else if str_equal(name, "calendar") { Some(SchemaId::Calendar) }
    else if str_equal(name, "audio") { Some(SchemaId::Audio) }
    else if str_equal(name, "brightness") { Some(SchemaId::Brightness) }
    else if str_equal(name, "battery") { Some(SchemaId::Battery) }
    else if str_equal(name, "nightlight") { Some(SchemaId::Nightlight) }
    else if str_equal(name, "location") { Some(SchemaId::Location) }
    else if str_equal(name, "idle") { Some(SchemaId::Idle) }
    else if str_equal(name, "keybinds") { Some(SchemaId::Keybinds) }
    else if str_equal(name, "dock") { Some(SchemaId::Dock) }
    else if str_equal(name, "hot_corners") { Some(SchemaId::HotCorners) }
    else if str_equal(name, "control_center") { Some(SchemaId::ControlCenter) }
    else if str_equal(name, "plugins") { Some(SchemaId::Plugins) }
    else if str_equal(name, "hooks") { Some(SchemaId::Hooks) }
    else if str_equal(name, "desktop_widgets") { Some(SchemaId::DesktopWidgets) }
    else if str_equal(name, "lockscreen_widgets") { Some(SchemaId::LockscreenWidgets) }
    else { None }
}

/// A table holding `path[from..]` as nested keys, the innermost holding the integer `0`.
pub open spec fn nested_from_path(path: Seq<Seq<char>>, from: int) -> TableData
    decreases path.len() - from,
{
    if from < 0 || from >= path.len() {
        Seq::empty()
    } else if from == path.len() - 1 {
        seq![(path[from], TomlData::Integer(0))]
    } else {
        seq![(path[from], TomlData::Table(nested_from_path(path, from + 1)))]
    }
}

/// The texts of a dotted path.
pub open spec fn path_view(path: Seq<String>) -> Seq<Seq<char>> {
    path.map_values(|s: String| s@)
}

fn nested_table(path: &[String], from: usize) -> (t: TomlTable)
    ensures
        t@ == nested_from_path(path_view(path@), from as int),
    decreases path@.len() - from,
{
    let mut t = TomlTable::new();
    if from >= path.len() {
        return t;
    }
    let key = path[from].clone();
    if from == path.len() - 1 {
        t.insert(key, TomlValue::Integer(0));
    } else {
        let child = nested_table(path, from + 1);
        t.insert(key, TomlValue::Table(child));
    }
    assert(t@ =~= nested_from_path(path_view(path@), from as int));
    t
}

/// Whether the search below `t` under `parent` with schema `id` finds no unknown key.
pub open spec fn all_known(t: TableData, id: SchemaId, parent: Seq<char>) -> bool {
    unknown_paths(t, id, parent, SEARCH_DEPTH as nat).len() == 0
}

fn finds_nothing_unknown(t: &TomlTable, id: SchemaId, parent: &str) -> (r: bool)
    ensures
        r == all_known(t@, id, parent@),
{
    let mut out: Vec<String> = Vec::new();
    collect_unknown_keys(t, id, parent, SEARCH_DEPTH, &mut out);
    assert(strs_of(out@) =~= unknown_paths(t@, id, parent@, SEARCH_DEPTH as nat));
    out.len() == 0
}

/// A dotted configuration path that some schema knows: a bar, a bar field or
/// one of a monitor override's fields; a known desktop-widget path; anything
/// under a plugin's settings; or a path into a section that its schema knows
/// all the way down (a path through a plain value is known once the value is).
pub open spec fn spec_is_known_config_path(path: Seq<Seq<char>>) -> bool {
    if path.len() == 0 {
        false
    } else if path[0] == "bar"@ {
        if path.len() <= 2 {
            true
        } else if path[2] == "monitor"@ {
            path.len() <= 4 || all_known(nested_from_path(path, 4), SchemaId::BarMonitorOverride, "bar"@)
        } else if path.len() == 3 && (path[2] == "position"@ || path[2] == "name"@) {
            true
        } else {
            all_known(nested_from_path(path, 2), SchemaId::BarFields, "bar"@)
        }
    } else if path[0] == "desktop_widgets"@ && spec_is_known_desktop_widget_path(path) {
        true
    } else if path[0] == "plugin_settings"@ {
        path.len() <= 3
    } else if path.len() < 2 {
        false
    } else {
        match section_schema(path[0]) {
            Some(id) => all_known(nested_from_path(path, 1), id, path[0]),
            None => false,
        }
    }
}

/// Whether some schema knows the dotted configuration path `path` (see
/// [`spec_is_known_config_path`]).
pub fn is_known_config_path(path: &[String]) -> (r: bool)
    ensures
        r == spec_is_known_config_path(path_view(path@)),
{
    let ghost pv = path_view(path@);
    if path.len() == 0 {
        return false;
    }
    let section = path[0].as_str();
    if str_equal(section, "bar") {
        if path.len() <= 2 {
            return true;
        }
        if str_equal(path[2].as_str(), "monitor") {
            if path.len() <= 4 {
                return true;
            }
            let nested = nested_table(path, 4);
            return finds_nothing_unknown(&nested, SchemaId::BarMonitorOverride, "bar");
        }
        if path.len() == 3 && (str_equal(path[2].as_str(), "position") || str_equal(path[2].as_str(), "name")) {
            return true;
        }
        let nested = nested_table(path, 2);
        return finds_nothing_unknown(&nested, SchemaId::BarFields, "bar");
    }
    if str_equal(section, "desktop_widgets") && is_known_desktop_widget_path(path) {
        return true;
    }
    if str_equal(section, "plugin_settings") {
        return path.len() <= 3;
    }
    if path.len() < 2 {
        return false;
    }
    match schema_of_section(section) {
        Some(id) => {
            let nested = nested_table(path, 1);
            finds_nothing_unknown(&nested, id, section)
        },
        None => false,
    }
}

} // verus!
