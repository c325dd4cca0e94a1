//! Readers and writers of the sections whose fields are all plain:
//! booleans, strings, paths, ranged integers and string lists. Each reader
//! takes the fields that the table sets and keeps the others; each writer
//! puts every field in schema order; reading what was written gives it back.

use vstd::prelude::*;
use crate::value::{TomlTable, TomlData, TableData, lookup, first_key_at, lemma_lookup_at, lemma_entries_data, entries_data};
use crate::schema::fields::{read_bool_field, read_string_field, read_path_field, read_int_field, read_strings_field,
    strings_array, lemma_strings_round_trip, get_bool, get_string, get_path, get_int, get_strings,
    bool_entry, string_entry, int_entry, strings_entry};
use crate::schema::value_checks::home_view;
use crate::types::widget_setting_value::string_list_view;

use crate::types::battery::BatteryDeviceWarningThreshold;
use crate::types::control_center::CalendarTabConfig;
use crate::types::desktop_widgets::DesktopWidgetsGridState;
use crate::types::hotcorners::HotCornerConfig;
use crate::types::osd::OsdKindsConfig;
use crate::types::shell::MprisConfig;
use crate::types::shell::PanelConfig;
use crate::types::shell::PrivacyConfig;
use crate::types::shell::ScreenCornersConfig;
use crate::types::shell::ScreenshotConfig;
use crate::types::shell::ShortcutConfig;
use crate::types::weather::WeatherConfig;

verus! {

/// The content of a [`WeatherConfig`].
pub struct WeatherConfigView {
    pub enabled: bool,
    pub effects: bool,
    pub refresh_minutes: i32,
    pub unit: Seq<char>,
}

impl View for WeatherConfig {
    type V = WeatherConfigView;

    open spec fn view(&self) -> WeatherConfigView {
        WeatherConfigView {
            enabled: self.enabled,
            effects: self.effects,
            refresh_minutes: self.refresh_minutes,
            unit: self.unit@,
        }
    }
}

/// `cur` with the fields that `t` sets read from it.
pub open spec fn spec_read_weather(cur: WeatherConfigView, t: TableData) -> WeatherConfigView {
    WeatherConfigView {
        enabled: read_bool_field(t, "enabled"@, cur.enabled),
        effects: read_bool_field(t, "effects"@, cur.effects),
        refresh_minutes: read_int_field(t, "refresh_minutes"@, Some((5i64, 240i64)), cur.refresh_minutes),
        unit: read_string_field(t, "unit"@, cur.unit),
    }
}

/// The table `v` is written as: every field, in schema order.
pub open spec fn spec_write_weather(v: WeatherConfigView) -> TableData {
    seq![("enabled"@, TomlData::Boolean(v.enabled)), ("effects"@, TomlData::Boolean(v.effects)), ("refresh_minutes"@, TomlData::Integer(v.refresh_minutes as i64)), ("unit"@, TomlData::String(v.unit))]
}

/// Reads the fields that `t` sets into `out`; see [`spec_read_weather`].
pub fn read_weather(t: &TomlTable, out: &mut WeatherConfig)
    ensures
        final(out)@ == spec_read_weather(old(out)@, t@),
{
    let enabled = get_bool(t, "enabled", out.enabled);
    out.enabled = enabled;
    let effects = get_bool(t, "effects", out.effects);
    out.effects = effects;
    out.refresh_minutes = get_int(t, "refresh_minutes", Some((5i64, 240i64)), out.refresh_minutes);
    get_string(t, "unit", &mut out.unit);
}

/// Writes every field of `v`, in schema order; see [`spec_write_weather`].
pub fn write_weather(v: &WeatherConfig) -> (t: TomlTable)
    ensures
        t@ == spec_write_weather(v@),
{
    let t = TomlTable { entries: vec![bool_entry("enabled", v.enabled), bool_entry("effects", v.effects), int_entry("refresh_minutes", v.refresh_minutes), string_entry("unit", &v.unit)] };
    proof {
        lemma_entries_data(t.entries@, t.entries@.len() as int);
        assert(t@ =~= spec_write_weather(v@));
    }
    t
}

/// Reading a written WeatherConfig back gives it (paths read without a home directory).
pub proof fn lemma_weather_round_trip(cur: WeatherConfigView, v: WeatherConfigView)
    requires
        5i64 <= v.refresh_minutes <= 240i64,
    ensures
        spec_read_weather(cur, spec_write_weather(v)) == (WeatherConfigView { enabled: v.enabled, effects: v.effects, refresh_minutes: v.refresh_minutes, unit: v.unit }),
{
    let t = spec_write_weather(v);
    assert(lookup(t, "enabled"@) == Some(t[0].1)) by {
        reveal_strlit("enabled");
        assert(first_key_at(t, "enabled"@, 0));
        lemma_lookup_at(t, "enabled"@, 0);
    }
    assert(read_bool_field(t, "enabled"@, cur.enabled) == v.enabled) by { reveal(read_bool_field); }
    assert(lookup(t, "effects"@) == Some(t[1].1)) by {
        reveal_strlit("enabled");
        reveal_strlit("effects");
        assert("enabled"@[1] != "effects"@[1]);
        assert(first_key_at(t, "effects"@, 1));
        lemma_lookup_at(t, "effects"@, 1);
    }
    assert(read_bool_field(t, "effects"@, cur.effects) == v.effects) by { reveal(read_bool_field); }
    assert(lookup(t, "refresh_minutes"@) == Some(t[2].1)) by {
        reveal_strlit("enabled");
        reveal_strlit("effects");
        reveal_strlit("refresh_minutes");
        assert("enabled"@.len() != "refresh_minutes"@.len());
        assert("effects"@.len() != "refresh_minutes"@.len());
        assert(first_key_at(t, "refresh_minutes"@, 2));
        lemma_lookup_at(t, "refresh_minutes"@, 2);
    }
    assert(lookup(t, "unit"@) == Some(t[3].1)) by {
        reveal_strlit("enabled");
        reveal_strlit("effects");
        reveal_strlit("refresh_minutes");
        reveal_strlit("unit");
        assert("enabled"@.len() != "unit"@.len());
        assert("effects"@.len() != "unit"@.len());
        assert("refresh_minutes"@.len() != "unit"@.len());
        assert(first_key_at(t, "unit"@, 3));
        lemma_lookup_at(t, "unit"@, 3);
    }
}

/// The content of a [`DesktopWidgetsGridState`].
pub struct DesktopWidgetsGridStateView {
    pub visible: bool,
    pub cell_size: i32,
    pub major_interval: i32,
}

impl View for DesktopWidgetsGridState {
    type V = DesktopWidgetsGridStateView;

    open spec fn view(&self) -> DesktopWidgetsGridStateView {
        DesktopWidgetsGridStateView {
            visible: self.visible,
            cell_size: self.cell_size,
            major_interval: self.major_interval,
        }
    }
}

/// `cur` with the fields that `t` sets read from it.
pub open spec fn spec_read_desktop_widgets_grid(cur: DesktopWidgetsGridStateView, t: TableData) -> DesktopWidgetsGridStateView {
    DesktopWidgetsGridStateView {
        visible: read_bool_field(t, "visible"@, cur.visible),
        cell_size: read_int_field(t, "cell_size"@, Some((8i64, 256i64)), cur.cell_size),
        major_interval: read_int_field(t, "major_interval"@, Some((1i64, 16i64)), cur.major_interval),
    }
}

/// The table `v` is written as: every field, in schema order.
pub open spec fn spec_write_desktop_widgets_grid(v: DesktopWidgetsGridStateView) -> TableData {
    seq![("visible"@, TomlData::Boolean(v.visible)), ("cell_size"@, TomlData::Integer(v.cell_size as i64)), ("major_interval"@, TomlData::Integer(v.major_interval as i64))]
}

/// Reads the fields that `t` sets into `out`; see [`spec_read_desktop_widgets_grid`].
pub fn read_desktop_widgets_grid(t: &TomlTable, out: &mut DesktopWidgetsGridState)
    ensures
        final(out)@ == spec_read_desktop_widgets_grid(old(out)@, t@),
{
    let visible = get_bool(t, "visible", out.visible);
    out.visible = visible;
    out.cell_size = get_int(t, "cell_size", Some((8i64, 256i64)), out.cell_size);
    out.major_interval = get_int(t, "major_interval", Some((1i64, 16i64)), out.major_interval);
}

/// Writes every field of `v`, in schema order; see [`spec_write_desktop_widgets_grid`].
pub fn write_desktop_widgets_grid(v: &DesktopWidgetsGridState) -> (t: TomlTable)
    ensures
        t@ == spec_write_desktop_widgets_grid(v@),
{
    let t = TomlTable { entries: vec![bool_entry("visible", v.visible), int_entry("cell_size", v.cell_size), int_entry("major_interval", v.major_interval)] };
    proof {
        lemma_entries_data(t.entries@, t.entries@.len() as int);
        assert(t@ =~= spec_write_desktop_widgets_grid(v@));
    }
    t
}

/// Reading a written DesktopWidgetsGridState back gives it (paths read without a home directory).
pub proof fn lemma_desktop_widgets_grid_round_trip(cur: DesktopWidgetsGridStateView, v: DesktopWidgetsGridStateView)
    requires
        8i64 <= v.cell_size <= 256i64,
        1i64 <= v.major_interval <= 16i64,
    ensures
        spec_read_desktop_widgets_grid(cur, spec_write_desktop_widgets_grid(v)) == (DesktopWidgetsGridStateView { visible: v.visible, cell_size: v.cell_size, major_interval: v.major_interval }),
{
    let t = spec_write_desktop_widgets_grid(v);
    assert(lookup(t, "visible"@) == Some(t[0].1)) by {
        reveal_strlit("visible");
        assert(first_key_at(t, "visible"@, 0));
        lemma_lookup_at(t, "visible"@, 0);
    }
    assert(read_bool_field(t, "visible"@, cur.visible) == v.visible) by { reveal(read_bool_field); }
    assert(lookup(t, "cell_size"@) == Some(t[1].1)) by {
        reveal_strlit("visible");
        reveal_strlit("cell_size");
        assert("visible"@.len() != "cell_size"@.len());
        assert(first_key_at(t, "cell_size"@, 1));
        lemma_lookup_at(t, "cell_size"@, 1);
    }
    assert(lookup(t, "major_interval"@) == Some(t[2].1)) by {
        reveal_strlit("visible");
        reveal_strlit("cell_size");
        reveal_strlit("major_interval");
        assert("visible"@.len() != "major_interval"@.len());
        assert("cell_size"@.len() != "major_interval"@.len());
        assert(first_key_at(t, "major_interval"@, 2));
        lemma_lookup_at(t, "major_interval"@, 2);
    }
}

/// The content of a [`HotCornerConfig`].
pub struct HotCornerConfigView {
    pub action: Seq<char>,
    pub command: Seq<char>,
}

impl View for HotCornerConfig {
    type V = HotCornerConfigView;

    open spec fn view(&self) -> HotCornerConfigView {
        HotCornerConfigView {
            action: self.action@,
            command: self.command@,
        }
    }
}

/// `cur` with the fields that `t` sets read from it.
pub open spec fn spec_read_corner(cur: HotCornerConfigView, t: TableData) -> HotCornerConfigView {
    HotCornerConfigView {
        action: read_string_field(t, "action"@, cur.action),
        command: read_string_field(t, "command"@, cur.command),
    }
}

/// The table `v` is written as: every field, in schema order.
pub open spec fn spec_write_corner(v: HotCornerConfigView) -> TableData {
    seq![("action"@, TomlData::String(v.action)), ("command"@, TomlData::String(v.command))]
}

/// Reads the fields that `t` sets into `out`; see [`spec_read_corner`].
pub fn read_corner(t: &TomlTable, out: &mut HotCornerConfig)
    ensures
        final(out)@ == spec_read_corner(old(out)@, t@),
{
    get_string(t, "action", &mut out.action);
    get_string(t, "command", &mut out.command);
}

/// Writes every field of `v`, in schema order; see [`spec_write_corner`].
pub fn write_corner(v: &HotCornerConfig) -> (t: TomlTable)
    ensures
        t@ == spec_write_corner(v@),
{
    let t = TomlTable { entries: vec![string_entry("action", &v.action), string_entry("command", &v.command)] };
    proof {
        lemma_entries_data(t.entries@, t.entries@.len() as int);
        assert(t@ =~= spec_write_corner(v@));
    }
    t
}

/// Reading a written HotCornerConfig back gives it (paths read without a home directory).
pub proof fn lemma_corner_round_trip(cur: HotCornerConfigView, v: HotCornerConfigView)
    ensures
        spec_read_corner(cur, spec_write_corner(v)) == (HotCornerConfigView { action: v.action, command: v.command }),
{
    let t = spec_write_corner(v);
    assert(lookup(t, "action"@) == Some(t[0].1)) by {
        reveal_strlit("action");
        assert(first_key_at(t, "action"@, 0));
        lemma_lookup_at(t, "action"@, 0);
    }
    assert(lookup(t, "command"@) == Some(t[1].1)) by {
        reveal_strlit("action");
        reveal_strlit("command");
        assert("action"@.len() != "command"@.len());
        assert(first_key_at(t, "command"@, 1));
        lemma_lookup_at(t, "command"@, 1);
    }
}

/// The content of a [`BatteryDeviceWarningThreshold`].
pub struct BatteryDeviceWarningThresholdView {
    pub selector: Seq<char>,
    pub warning_threshold: i32,
}

impl View for BatteryDeviceWarningThreshold {
    type V = BatteryDeviceWarningThresholdView;

    open spec fn view(&self) -> BatteryDeviceWarningThresholdView {
        BatteryDeviceWarningThresholdView {
            selector: self.selector@,
            warning_threshold: self.warning_threshold,
        }
    }
}

/// `cur` with the fields that `t` sets read from it.
pub open spec fn spec_read_battery_device(cur: BatteryDeviceWarningThresholdView, t: TableData) -> BatteryDeviceWarningThresholdView {
    BatteryDeviceWarningThresholdView {
        selector: read_string_field(t, "name"@, cur.selector),
        warning_threshold: read_int_field(t, "warning_threshold"@, Some((0i64, 100i64)), cur.warning_threshold),
    }
}

/// The table `v` is written as: every field, in schema order.
pub open spec fn spec_write_battery_device(v: BatteryDeviceWarningThresholdView) -> TableData {
    seq![("name"@, TomlData::String(v.selector)), ("warning_threshold"@, TomlData::Integer(v.warning_threshold as i64))]
}

/// Reads the fields that `t` sets into `out`; see [`spec_read_battery_device`].
pub fn read_battery_device(t: &TomlTable, out: &mut BatteryDeviceWarningThreshold)
    ensures
        final(out)@ == spec_read_battery_device(old(out)@, t@),
{
    get_string(t, "name", &mut out.selector);
    out.warning_threshold = get_int(t, "warning_threshold", Some((0i64, 100i64)), out.warning_threshold);
}

/// Writes every field of `v`, in schema order; see [`spec_write_battery_device`].
pub fn write_battery_device(v: &BatteryDeviceWarningThreshold) -> (t: TomlTable)
    ensures
        t@ == spec_write_battery_device(v@),
{
    let t = TomlTable { entries: vec![string_entry("name", &v.selector), int_entry("warning_threshold", v.warning_threshold)] };
    proof {
        lemma_entries_data(t.entries@, t.entries@.len() as int);
        assert(t@ =~= spec_write_battery_device(v@));
    }
    t
}

/// Reading a written BatteryDeviceWarningThreshold back gives it (paths read without a home directory).
pub proof fn lemma_battery_device_round_trip(cur: BatteryDeviceWarningThresholdView, v: BatteryDeviceWarningThresholdView)
    requires
        0i64 <= v.warning_threshold <= 100i64,
    ensures
        spec_read_battery_device(cur, spec_write_battery_device(v)) == (BatteryDeviceWarningThresholdView { selector: v.selector, warning_threshold: v.warning_threshold }),
{
    let t = spec_write_battery_device(v);
    assert(lookup(t, "name"@) == Some(t[0].1)) by {
        reveal_strlit("name");
        assert(first_key_at(t, "name"@, 0));
        lemma_lookup_at(t, "name"@, 0);
    }
    assert(lookup(t, "warning_threshold"@) == Some(t[1].1)) by {
        reveal_strlit("name");
        reveal_strlit("warning_threshold");
        assert("name"@.len() != "warning_threshold"@.len());
        assert(first_key_at(t, "warning_threshold"@, 1));
        lemma_lookup_at(t, "warning_threshold"@, 1);
    }
}

/// The content of a [`ShortcutConfig`].
pub struct ShortcutConfigView {
    pub type_: Seq<char>,
}

impl View for ShortcutConfig {
    type V = ShortcutConfigView;

    open spec fn view(&self) -> ShortcutConfigView {
        ShortcutConfigView {
            type_: self.type_@,
        }
    }
}

/// `cur` with the fields that `t` sets read from it.
pub open spec fn spec_read_shortcut(cur: ShortcutConfigView, t: TableData) -> ShortcutConfigView {
    ShortcutConfigView {
        type_: read_string_field(t, "type"@, cur.type_),
    }
}

/// The table `v` is written as: every field, in schema order.
pub open spec fn spec_write_shortcut(v: ShortcutConfigView) -> TableData {
    seq![("type"@, TomlData::String(v.type_))]
}

/// Reads the fields that `t` sets into `out`; see [`spec_read_shortcut`].
pub fn read_shortcut(t: &TomlTable, out: &mut ShortcutConfig)
    ensures
        final(out)@ == spec_read_shortcut(old(out)@, t@),
{
    get_string(t, "type", &mut out.type_);
}

/// Writes every field of `v`, in schema order; see [`spec_write_shortcut`].
pub fn write_shortcut(v: &ShortcutConfig) -> (t: TomlTable)
    ensures
        t@ == spec_write_shortcut(v@),
{
    let t = TomlTable { entries: vec![string_entry("type", &v.type_)] };
    proof {
        lemma_entries_data(t.entries@, t.entries@.len() as int);
        assert(t@ =~= spec_write_shortcut(v@));
    }
    t
}

/// Reading a written ShortcutConfig back gives it (paths read without a home directory).
pub proof fn lemma_shortcut_round_trip(cur: ShortcutConfigView, v: ShortcutConfigView)
    ensures
        spec_read_shortcut(cur, spec_write_shortcut(v)) == (ShortcutConfigView { type_: v.type_ }),
{
    let t = spec_write_shortcut(v);
    assert(lookup(t, "type"@) == Some(t[0].1)) by {
        reveal_strlit("type");
        assert(first_key_at(t, "type"@, 0));
        lemma_lookup_at(t, "type"@, 0);
    }
}

/// The content of a [`CalendarTabConfig`].
pub struct CalendarTabConfigView {
    pub show_events_card: bool,
    pub show_week_numbers: bool,
    pub event_date_format: Seq<char>,
    pub event_time_format: Seq<char>,
}

impl View for CalendarTabConfig {
    type V = CalendarTabConfigView;

    open spec fn view(&self) -> CalendarTabConfigView {
        CalendarTabConfigView {
            show_events_card: self.show_events_card,
            show_week_numbers: self.show_week_numbers,
            event_date_format: self.event_date_format@,
            event_time_format: self.event_time_format@,
        }
    }
}

/// `cur` with the fields that `t` sets read from it.
pub open spec fn spec_read_calendar_tab(cur: CalendarTabConfigView, t: TableData) -> CalendarTabConfigView {
    CalendarTabConfigView {
        show_events_card: read_bool_field(t, "show_events_card"@, cur.show_events_card),
        show_week_numbers: read_bool_field(t, "show_week_numbers"@, cur.show_week_numbers),
        event_date_format: read_string_field(t, "event_date_format"@, cur.event_date_format),
        event_time_format: read_string_field(t, "event_time_format"@, cur.event_time_format),
    }
}

/// The table `v` is written as: every field, in schema order.
pub open spec fn spec_write_calendar_tab(v: CalendarTabConfigView) -> TableData {
    seq![("show_events_card"@, TomlData::Boolean(v.show_events_card)), ("show_week_numbers"@, TomlData::Boolean(v.show_week_numbers)), ("event_date_format"@, TomlData::String(v.event_date_format)), ("event_time_format"@, TomlData::String(v.event_time_format))]
}

/// Reads the fields that `t` sets into `out`; see [`spec_read_calendar_tab`].
pub fn read_calendar_tab(t: &TomlTable, out: &mut CalendarTabConfig)
    ensures
        final(out)@ == spec_read_calendar_tab(old(out)@, t@),
{
    let show_events_card = get_bool(t, "show_events_card", out.show_events_card);
    out.show_events_card = show_events_card;
    let show_week_numbers = get_bool(t, "show_week_numbers", out.show_week_numbers);
    out.show_week_numbers = show_week_numbers;
    get_string(t, "event_date_format", &mut out.event_date_format);
    get_string(t, "event_time_format", &mut out.event_time_format);
}

/// Writes every field of `v`, in schema order; see [`spec_write_calendar_tab`].
pub fn write_calendar_tab(v: &CalendarTabConfig) -> (t: TomlTable)
    ensures
        t@ == spec_write_calendar_tab(v@),
{
    let t = TomlTable { entries: vec![bool_entry("show_events_card", v.show_events_card), bool_entry("show_week_numbers", v.show_week_numbers), string_entry("event_date_format", &v.event_date_format), string_entry("event_time_format", &v.event_time_format)] };
    proof {
        lemma_entries_data(t.entries@, t.entries@.len() as int);
        assert(t@ =~= spec_write_calendar_tab(v@));
    }
    t
}

/// Reading a written CalendarTabConfig back gives it (paths read without a home directory).
pub proof fn lemma_calendar_tab_round_trip(cur: CalendarTabConfigView, v: CalendarTabConfigView)
    ensures
        spec_read_calendar_tab(cur, spec_write_calendar_tab(v)) == (CalendarTabConfigView { show_events_card: v.show_events_card, show_week_numbers: v.show_week_numbers, event_date_format: v.event_date_format, event_time_format: v.event_time_format }),
{
    let t = spec_write_calendar_tab(v);
    assert(lookup(t, "show_events_card"@) == Some(t[0].1)) by {
        reveal_strlit("show_events_card");
        assert(first_key_at(t, "show_events_card"@, 0));
        lemma_lookup_at(t, "show_events_card"@, 0);
    }
    assert(read_bool_field(t, "show_events_card"@, cur.show_events_card) == v.show_events_card) by { reveal(read_bool_field); }
    assert(lookup(t, "show_week_numbers"@) == Some(t[1].1)) by {
        reveal_strlit("show_events_card");
        reveal_strlit("show_week_numbers");
        assert("show_events_card"@.len() != "show_week_numbers"@.len());
        assert(first_key_at(t, "show_week_numbers"@, 1));
        lemma_lookup_at(t, "show_week_numbers"@, 1);
    }
    assert(read_bool_field(t, "show_week_numbers"@, cur.show_week_numbers) == v.show_week_numbers) by { reveal(read_bool_field); }
    assert(lookup(t, "event_date_format"@) == Some(t[2].1)) by {
        reveal_strlit("show_events_card");
        reveal_strlit("show_week_numbers");
        reveal_strlit("event_date_format");
        assert("show_events_card"@.len() != "event_date_format"@.len());
        assert("show_week_numbers"@[0] != "event_date_format"@[0]);
        assert(first_key_at(t, "event_date_format"@, 2));
        lemma_lookup_at(t, "event_date_format"@, 2);
    }
    assert(lookup(t, "event_time_format"@) == Some(t[3].1)) by {
        reveal_strlit("show_events_card");
        reveal_strlit("show_week_numbers");
        reveal_strlit("event_date_format");
        reveal_strlit("event_time_format");
        assert("show_events_card"@.len() != "event_time_format"@.len());
        assert("show_week_numbers"@[0] != "event_time_format"@[0]);
        assert("event_date_format"@[6] != "event_time_format"@[6]);
        assert(first_key_at(t, "event_time_format"@, 3));
        lemma_lookup_at(t, "event_time_format"@, 3);
    }
}

/// The content of a [`PanelConfig`].
pub struct PanelConfigView {
    pub transparency_mode: Seq<char>,
    pub borders: bool,
    pub shadow: bool,
    pub list_item_background: bool,
    pub launcher_placement: Seq<char>,
    pub clipboard_placement: Seq<char>,
    pub control_center_placement: Seq<char>,
    pub wallpaper_placement: Seq<char>,
    pub session_placement: Seq<char>,
    pub polkit_placement: Seq<char>,
    pub launcher_position: Seq<char>,
    pub clipboard_position: Seq<char>,
    pub control_center_position: Seq<char>,
    pub wallpaper_position: Seq<char>,
    pub session_position: Seq<char>,
    pub polkit_position: Seq<char>,
    pub floating_offset: i32,
    pub open_near_click_control_center: bool,
    pub open_near_click_launcher: bool,
    pub open_near_click_clipboard: bool,
    pub open_near_click_wallpaper: bool,
    pub open_near_click_session: bool,
}

impl View for PanelConfig {
    type V = PanelConfigView;

    open spec fn view(&self) -> PanelConfigView {
        PanelConfigView {
            transparency_mode: self.transparency_mode@,
            borders: self.borders,
            shadow: self.shadow,
            list_item_background: self.list_item_background,
            launcher_placement: self.launcher_placement@,
            clipboard_placement: self.clipboard_placement@,
            control_center_placement: self.control_center_placement@,
            wallpaper_placement: self.wallpaper_placement@,
            session_placement: self.session_placement@,
            polkit_placement: self.polkit_placement@,
            launcher_position: self.launcher_position@,
            clipboard_position: self.clipboard_position@,
            control_center_position: self.control_center_position@,
            wallpaper_position: self.wallpaper_position@,
            session_position: self.session_position@,
            polkit_position: self.polkit_position@,
            floating_offset: self.floating_offset,
            open_near_click_control_center: self.open_near_click_control_center,
            open_near_click_launcher: self.open_near_click_launcher,
            open_near_click_clipboard: self.open_near_click_clipboard,
            open_near_click_wallpaper: self.open_near_click_wallpaper,
            open_near_click_session: self.open_near_click_session,
        }
    }
}

/// `cur` with the fields that `t` sets read from it.
pub open spec fn spec_read_shell_panel(cur: PanelConfigView, t: TableData) -> PanelConfigView {
    PanelConfigView {
        transparency_mode: read_string_field(t, "transparency_mode"@, cur.transparency_mode),
        borders: read_bool_field(t, "borders"@, cur.borders),
        shadow: read_bool_field(t, "shadow"@, cur.shadow),
        list_item_background: read_bool_field(t, "list_item_background"@, cur.list_item_background),
        launcher_placement: read_string_field(t, "launcher_placement"@, cur.launcher_placement),
        clipboard_placement: read_string_field(t, "clipboard_placement"@, cur.clipboard_placement),
        control_center_placement: read_string_field(t, "control_center_placement"@, cur.control_center_placement),
        wallpaper_placement: read_string_field(t, "wallpaper_placement"@, cur.wallpaper_placement),
        session_placement: read_string_field(t, "session_placement"@, cur.session_placement),
        polkit_placement: read_string_field(t, "polkit_placement"@, cur.polkit_placement),
        launcher_position: read_string_field(t, "launcher_position"@, cur.launcher_position),
        clipboard_position: read_string_field(t, "clipboard_position"@, cur.clipboard_position),
        control_center_position: read_string_field(t, "control_center_position"@, cur.control_center_position),
        wallpaper_position: read_string_field(t, "wallpaper_position"@, cur.wallpaper_position),
        session_position: read_string_field(t, "session_position"@, cur.session_position),
        polkit_position: read_string_field(t, "polkit_position"@, cur.polkit_position),
        floating_offset: read_int_field(t, "floating_offset"@, Some((0i64, 100i64)), cur.floating_offset),
        open_near_click_control_center: read_bool_field(t, "open_near_click_control_center"@, cur.open_near_click_control_center),
        open_near_click_launcher: read_bool_field(t, "open_near_click_launcher"@, cur.open_near_click_launcher),
        open_near_click_clipboard: read_bool_field(t, "open_near_click_clipboard"@, cur.open_near_click_clipboard),
        open_near_click_wallpaper: read_bool_field(t, "open_near_click_wallpaper"@, cur.open_near_click_wallpaper),
        open_near_click_session: read_bool_field(t, "open_near_click_session"@, cur.open_near_click_session),
    }
}

/// The table `v` is written as: every field, in schema order.
pub open spec fn spec_write_shell_panel(v: PanelConfigView) -> TableData {
    seq![("transparency_mode"@, TomlData::String(v.transparency_mode)), ("borders"@, TomlData::Boolean(v.borders)), ("shadow"@, TomlData::Boolean(v.shadow)), ("list_item_background"@, TomlData::Boolean(v.list_item_background)), ("launcher_placement"@, TomlData::String(v.launcher_placement)), ("clipboard_placement"@, TomlData::String(v.clipboard_placement)), ("control_center_placement"@, TomlData::String(v.control_center_placement)), ("wallpaper_placement"@, TomlData::String(v.wallpaper_placement)), ("session_placement"@, TomlData::String(v.session_placement)), ("polkit_placement"@, TomlData::String(v.polkit_placement)), ("launcher_position"@, TomlData::String(v.launcher_position)), ("clipboard_position"@, TomlData::String(v.clipboard_position)), ("control_center_position"@, TomlData::String(v.control_center_position)), ("wallpaper_position"@, TomlData::String(v.wallpaper_position)), ("session_position"@, TomlData::String(v.session_position)), ("polkit_position"@, TomlData::String(v.polkit_position)), ("floating_offset"@, TomlData::Integer(v.floating_offset as i64)), ("open_near_click_control_center"@, TomlData::Boolean(v.open_near_click_control_center)), ("open_near_click_launcher"@, TomlData::Boolean(v.open_near_click_launcher)), ("open_near_click_clipboard"@, TomlData::Boolean(v.open_near_click_clipboard)), ("open_near_click_wallpaper"@, TomlData::Boolean(v.open_near_click_wallpaper)), ("open_near_click_session"@, TomlData::Boolean(v.open_near_click_session))]
}

/// Reads the fields that `t` sets into `out`; see [`spec_read_shell_panel`].
#[verifier::spinoff_prover]
#[verifier::rlimit(80)]
pub fn read_shell_panel(t: &TomlTable, out: &mut PanelConfig)
    ensures
        final(out)@ == spec_read_shell_panel(old(out)@, t@),
{
    get_string(t, "transparency_mode", &mut out.transparency_mode);
    let borders = get_bool(t, "borders", out.borders);
    out.borders = borders;
    let shadow = get_bool(t, "shadow", out.shadow);
    out.shadow = shadow;
    let list_item_background = get_bool(t, "list_item_background", out.list_item_background);
    out.list_item_background = list_item_background;
    get_string(t, "launcher_placement", &mut out.launcher_placement);
    get_string(t, "clipboard_placement", &mut out.clipboard_placement);
    get_string(t, "control_center_placement", &mut out.control_center_placement);
    get_string(t, "wallpaper_placement", &mut out.wallpaper_placement);
    get_string(t, "session_placement", &mut out.session_placement);
    get_string(t, "polkit_placement", &mut out.polkit_placement);
    get_string(t, "launcher_position", &mut out.launcher_position);
    get_string(t, "clipboard_position", &mut out.clipboard_position);
    get_string(t, "control_center_position", &mut out.control_center_position);
    get_string(t, "wallpaper_position", &mut out.wallpaper_position);
    get_string(t, "session_position", &mut out.session_position);
    get_string(t, "polkit_position", &mut out.polkit_position);
    out.floating_offset = get_int(t, "floating_offset", Some((0i64, 100i64)), out.floating_offset);
    let open_near_click_control_center = get_bool(t, "open_near_click_control_center", out.open_near_click_control_center);
    out.open_near_click_control_center = open_near_click_control_center;
    let open_near_click_launcher = get_bool(t, "open_near_click_launcher", out.open_near_click_launcher);
    out.open_near_click_launcher = open_near_click_launcher;
    let open_near_click_clipboard = get_bool(t, "open_near_click_clipboard", out.open_near_click_clipboard);
    out.open_near_click_clipboard = open_near_click_clipboard;
    let open_near_click_wallpaper = get_bool(t, "open_near_click_wallpaper", out.open_near_click_wallpaper);
    out.open_near_click_wallpaper = open_near_click_wallpaper;
    let open_near_click_session = get_bool(t, "open_near_click_session", out.open_near_click_session);
    out.open_near_click_session = open_near_click_session;
}

/// Writes every field of `v`, in schema order; see [`spec_write_shell_panel`].
#[verifier::spinoff_prover]
#[verifier::rlimit(80)]
pub fn write_shell_panel(v: &PanelConfig) -> (t: TomlTable)
    ensures
        t@ == spec_write_shell_panel(v@),
{
    let t = TomlTable { entries: vec![string_entry("transparency_mode", &v.transparency_mode), bool_entry("borders", v.borders), bool_entry("shadow", v.shadow), bool_entry("list_item_background", v.list_item_background), string_entry("launcher_placement", &v.launcher_placement), string_entry("clipboard_placement", &v.clipboard_placement), string_entry("control_center_placement", &v.control_center_placement), string_entry("wallpaper_placement", &v.wallpaper_placement), string_entry("session_placement", &v.session_placement), string_entry("polkit_placement", &v.polkit_placement), string_entry("launcher_position", &v.launcher_position), string_entry("clipboard_position", &v.clipboard_position), string_entry("control_center_position", &v.control_center_position), string_entry("wallpaper_position", &v.wallpaper_position), string_entry("session_position", &v.session_position), string_entry("polkit_position", &v.polkit_position), int_entry("floating_offset", v.floating_offset), bool_entry("open_near_click_control_center", v.open_near_click_control_center), bool_entry("open_near_click_launcher", v.open_near_click_launcher), bool_entry("open_near_click_clipboard", v.open_near_click_clipboard), bool_entry("open_near_click_wallpaper", v.open_near_click_wallpaper), bool_entry("open_near_click_session", v.open_near_click_session)] };
    proof {
        lemma_entries_data(t.entries@, t.entries@.len() as int);
        assert(t@ =~= spec_write_shell_panel(v@));
    }
    t
}

/// Reading a written PanelConfig back gives it (paths read without a home directory).
#[verifier::spinoff_prover]
#[verifier::rlimit(100)]
pub proof fn lemma_shell_panel_round_trip(cur: PanelConfigView, v: PanelConfigView)
    requires
        0i64 <= v.floating_offset <= 100i64,
    ensures
        spec_read_shell_panel(cur, spec_write_shell_panel(v)) == (PanelConfigView { transparency_mode: v.transparency_mode, borders: v.borders, shadow: v.shadow, list_item_background: v.list_item_background, launcher_placement: v.launcher_placement, clipboard_placement: v.clipboard_placement, control_center_placement: v.control_center_placement, wallpaper_placement: v.wallpaper_placement, session_placement: v.session_placement, polkit_placement: v.polkit_placement, launcher_position: v.launcher_position, clipboard_position: v.clipboard_position, control_center_position: v.control_center_position, wallpaper_position: v.wallpaper_position, session_position: v.session_position, polkit_position: v.polkit_position, floating_offset: v.floating_offset, open_near_click_control_center: v.open_near_click_control_center, open_near_click_launcher: v.open_near_click_launcher, open_near_click_clipboard: v.open_near_click_clipboard, open_near_click_wallpaper: v.open_near_click_wallpaper, open_near_click_session: v.open_near_click_session }),
{
    let t = spec_write_shell_panel(v);
    assert(lookup(t, "transparency_mode"@) == Some(t[0].1)) by {
        reveal_strlit("transparency_mode");
        assert(first_key_at(t, "transparency_mode"@, 0));
        lemma_lookup_at(t, "transparency_mode"@, 0);
    }
    assert(lookup(t, "borders"@) == Some(t[1].1)) by {
        reveal_strlit("transparency_mode");
        reveal_strlit("borders");
        assert("transparency_mode"@.len() != "borders"@.len());
        assert(first_key_at(t, "borders"@, 1));
        lemma_lookup_at(t, "borders"@, 1);
    }
    assert(read_bool_field(t, "borders"@, cur.borders) == v.borders) by { reveal(read_bool_field); }
    assert(lookup(t, "shadow"@) == Some(t[2].1)) by {
        reveal_strlit("transparency_mode");
        reveal_strlit("borders");
        reveal_strlit("shadow");
        assert("transparency_mode"@.len() != "shadow"@.len());
        assert("borders"@.len() != "shadow"@.len());
        assert(first_key_at(t, "shadow"@, 2));
        lemma_lookup_at(t, "shadow"@, 2);
    }
    assert(read_bool_field(t, "shadow"@, cur.shadow) == v.shadow) by { reveal(read_bool_field); }
    assert(lookup(t, "list_item_background"@) == Some(t[3].1)) by {
        reveal_strlit("transparency_mode");
        reveal_strlit("borders");
        reveal_strlit("shadow");
        reveal_strlit("list_item_background");
        assert("transparency_mode"@.len() != "list_item_background"@.len());
        assert("borders"@.len() != "list_item_background"@.len());
        assert("shadow"@.len() != "list_item_background"@.len());
        assert(first_key_at(t, "list_item_background"@, 3));
        lemma_lookup_at(t, "list_item_background"@, 3);
    }
    assert(read_bool_field(t, "list_item_background"@, cur.list_item_background) == v.list_item_background) by { reveal(read_bool_field); }
    assert(lookup(t, "launcher_placement"@) == Some(t[4].1)) by {
        reveal_strlit("transparency_mode");
        reveal_strlit("borders");
        reveal_strlit("shadow");
        reveal_strlit("list_item_background");
        reveal_strlit("launcher_placement");
        assert("transparency_mode"@.len() != "launcher_placement"@.len());
        assert("borders"@.len() != "launcher_placement"@.len());
        assert("shadow"@.len() != "launcher_placement"@.len());
        assert("list_item_background"@.len() != "launcher_placement"@.len());
        assert(first_key_at(t, "launcher_placement"@, 4));
        lemma_lookup_at(t, "launcher_placement"@, 4);
    }
    assert(lookup(t, "clipboard_placement"@) == Some(t[5].1)) by {
        reveal_strlit("transparency_mode");
        reveal_strlit("borders");
        reveal_strlit("shadow");
        reveal_strlit("list_item_background");
        reveal_strlit("launcher_placement");
        reveal_strlit("clipboard_placement");
        assert("transparency_mode"@.len() != "clipboard_placement"@.len());
        assert("borders"@.len() != "clipboard_placement"@.len());
        assert("shadow"@.len() != "clipboard_placement"@.len());
        assert("list_item_background"@.len() != "clipboard_placement"@.len());
        assert("launcher_placement"@.len() != "clipboard_placement"@.len());
        assert(first_key_at(t, "clipboard_placement"@, 5));
        lemma_lookup_at(t, "clipboard_placement"@, 5);
    }
    assert(lookup(t, "control_center_placement"@) == Some(t[6].1)) by {
        reveal_strlit("transparency_mode");
        reveal_strlit("borders");
        reveal_strlit("shadow");
        reveal_strlit("list_item_background");
        reveal_strlit("launcher_placement");
        reveal_strlit("clipboard_placement");
        reveal_strlit("control_center_placement");
        assert("transparency_mode"@.len() != "control_center_placement"@.len());
        assert("borders"@.len() != "control_center_placement"@.len());
        assert("shadow"@.len() != "control_center_placement"@.len());
        assert("list_item_background"@.len() != "control_center_placement"@.len());
        assert("launcher_placement"@.len() != "control_center_placement"@.len());
        assert("clipboard_placement"@.len() != "control_center_placement"@.len());
        assert(first_key_at(t, "control_center_placement"@, 6));
        lemma_lookup_at(t, "control_center_placement"@, 6);
    }
    assert(lookup(t, "wallpaper_placement"@) == Some(t[7].1)) by {
        reveal_strlit("transparency_mode");
        reveal_strlit("borders");
        reveal_strlit("shadow");
        reveal_strlit("list_item_background");
        reveal_strlit("launcher_placement");
        reveal_strlit("clipboard_placement");
        reveal_strlit("control_center_placement");
        reveal_strlit("wallpaper_placement");
        assert("transparency_mode"@.len() != "wallpaper_placement"@.len());
        assert("borders"@.len() != "wallpaper_placement"@.len());
        assert("shadow"@.len() != "wallpaper_placement"@.len());
        assert("list_item_background"@.len() != "wallpaper_placement"@.len());
        assert("launcher_placement"@.len() != "wallpaper_placement"@.len());
        assert("clipboard_placement"@[0] != "wallpaper_placement"@[0]);
        assert("control_center_placement"@.len() != "wallpaper_placement"@.len());
        assert(first_key_at(t, "wallpaper_placement"@, 7));
        lemma_lookup_at(t, "wallpaper_placement"@, 7);
    }
    assert(lookup(t, "session_placement"@) == Some(t[8].1)) by {
        reveal_strlit("transparency_mode");
        reveal_strlit("borders");
        reveal_strlit("shadow");
        reveal_strlit("list_item_background");
        reveal_strlit("launcher_placement");
        reveal_strlit("clipboard_placement");
        reveal_strlit("control_center_placement");
        reveal_strlit("wallpaper_placement");
        reveal_strlit("session_placement");
        assert("transparency_mode"@[0] != "session_placement"@[0]);
        assert("borders"@.len() != "session_placement"@.len());
        assert("shadow"@.len() != "session_placement"@.len());
        assert("list_item_background"@.len() != "session_placement"@.len());
        assert("launcher_placement"@.len() != "session_placement"@.len());
        assert("clipboard_placement"@.len() != "session_placement"@.len());
        assert("control_center_placement"@.len() != "session_placement"@.len());
        assert("wallpaper_placement"@.len() != "session_placement"@.len());
        assert(first_key_at(t, "session_placement"@, 8));
        lemma_lookup_at(t, "session_placement"@, 8);
    }
    assert(lookup(t, "polkit_placement"@) == Some(t[9].1)) by {
        reveal_strlit("transparency_mode");
        reveal_strlit("borders");
        reveal_strlit("shadow");
        reveal_strlit("list_item_background");
        reveal_strlit("launcher_placement");
        reveal_strlit("clipboard_placement");
        reveal_strlit("control_center_placement");
        reveal_strlit("wallpaper_placement");
        reveal_strlit("session_placement");
        reveal_strlit("polkit_placement");
        assert("transparency_mode"@.len() != "polkit_placement"@.len());
        assert("borders"@.len() != "polkit_placement"@.len());
        assert("shadow"@.len() != "polkit_placement"@.len());
        assert("list_item_background"@.len() != "polkit_placement"@.len());
        assert("launcher_placement"@.len() != "polkit_placement"@.len());
        assert("clipboard_placement"@.len() != "polkit_placement"@.len());
        assert("control_center_placement"@.len() != "polkit_placement"@.len());
        assert("wallpaper_placement"@.len() != "polkit_placement"@.len());
        assert("session_placement"@.len() != "polkit_placement"@.len());
        assert(first_key_at(t, "polkit_placement"@, 9));
        lemma_lookup_at(t, "polkit_placement"@, 9);
    }
    assert(lookup(t, "launcher_position"@) == Some(t[10].1)) by {
        reveal_strlit("transparency_mode");
        reveal_strlit("borders");
        reveal_strlit("shadow");
        reveal_strlit("list_item_background");
        reveal_strlit("launcher_placement");
        reveal_strlit("clipboard_placement");
        reveal_strlit("control_center_placement");
        reveal_strlit("wallpaper_placement");
        reveal_strlit("session_placement");
        reveal_strlit("polkit_placement");
        reveal_strlit("launcher_position");
        assert("transparency_mode"@[0] != "launcher_position"@[0]);
        assert("borders"@.len() != "launcher_position"@.len());
        assert("shadow"@.len() != "launcher_position"@.len());
        assert("list_item_background"@.len() != "launcher_position"@.len());
        assert("launcher_placement"@.len() != "launcher_position"@.len());
        assert("clipboard_placement"@.len() != "launcher_position"@.len());
        assert("control_center_placement"@.len() != "launcher_position"@.len());
        assert("wallpaper_placement"@.len() != "launcher_position"@.len());
        assert("session_placement"@[0] != "launcher_position"@[0]);
        assert("polkit_placement"@.len() != "launcher_position"@.len());
        assert(first_key_at(t, "launcher_position"@, 10));
        lemma_lookup_at(t, "launcher_position"@, 10);
    }
    assert(lookup(t, "clipboard_position"@) == Some(t[11].1)) by {
        reveal_strlit("transparency_mode");
        reveal_strlit("borders");
        reveal_strlit("shadow");
        reveal_strlit("list_item_background");
        reveal_strlit("launcher_placement");
        reveal_strlit("clipboard_placement");
        reveal_strlit("control_center_placement");
        reveal_strlit("wallpaper_placement");
        reveal_strlit("session_placement");
        reveal_strlit("polkit_placement");
        reveal_strlit("launcher_position");
        reveal_strlit("clipboard_position");
        assert("transparency_mode"@.len() != "clipboard_position"@.len());
        assert("borders"@.len() != "clipboard_position"@.len());
        assert("shadow"@.len() != "clipboard_position"@.len());
        assert("list_item_background"@.len() != "clipboard_position"@.len());
        assert("launcher_placement"@[0] != "clipboard_position"@[0]);
        assert("clipboard_placement"@.len() != "clipboard_position"@.len());
        assert("control_center_placement"@.len() != "clipboard_position"@.len());
        assert("wallpaper_placement"@.len() != "clipboard_position"@.len());
        assert("session_placement"@.len() != "clipboard_position"@.len());
        assert("polkit_placement"@.len() != "clipboard_position"@.len());
        assert("launcher_position"@.len() != "clipboard_position"@.len());
        assert(first_key_at(t, "clipboard_position"@, 11));
        lemma_lookup_at(t, "clipboard_position"@, 11);
    }
    assert(lookup(t, "control_center_position"@) == Some(t[12].1)) by {
        reveal_strlit("transparency_mode");
        reveal_strlit("borders");
        reveal_strlit("shadow");
        reveal_strlit("list_item_background");
        reveal_strlit("launcher_placement");
        reveal_strlit("clipboard_placement");
        reveal_strlit("control_center_placement");
        reveal_strlit("wallpaper_placement");
        reveal_strlit("session_placement");
        reveal_strlit("polkit_placement");
        reveal_strlit("launcher_position");
        reveal_strlit("clipboard_position");
        reveal_strlit("control_center_position");
        assert("transparency_mode"@.len() != "control_center_position"@.len());
        assert("borders"@.len() != "control_center_position"@.len());
        assert("shadow"@.len() != "control_center_position"@.len());
        assert("list_item_background"@.len() != "control_center_position"@.len());
        assert("launcher_placement"@.len() != "control_center_position"@.len());
        assert("clipboard_placement"@.len() != "control_center_position"@.len());
        assert("control_center_placement"@.len() != "control_center_position"@.len());
        assert("wallpaper_placement"@.len() != "control_center_position"@.len());
        assert("session_placement"@.len() != "control_center_position"@.len());
        assert("polkit_placement"@.len() != "control_center_position"@.len());
        assert("launcher_position"@.len() != "control_center_position"@.len());
        assert("clipboard_position"@.len() != "control_center_position"@.len());
        assert(first_key_at(t, "control_center_position"@, 12));
        lemma_lookup_at(t, "control_center_position"@, 12);
    }
    assert(lookup(t, "wallpaper_position"@) == Some(t[13].1)) by {
        reveal_strlit("transparency_mode");
        reveal_strlit("borders");
        reveal_strlit("shadow");
        reveal_strlit("list_item_background");
        reveal_strlit("launcher_placement");
        reveal_strlit("clipboard_placement");
        reveal_strlit("control_center_placement");
        reveal_strlit("wallpaper_placement");
        reveal_strlit("session_placement");
        reveal_strlit("polkit_placement");
        reveal_strlit("launcher_position");
        reveal_strlit("clipboard_position");
        reveal_strlit("control_center_position");
        reveal_strlit("wallpaper_position");
        assert("transparency_mode"@.len() != "wallpaper_position"@.len());
        assert("borders"@.len() != "wallpaper_position"@.len());
        assert("shadow"@.len() != "wallpaper_position"@.len());
        assert("list_item_background"@.len() != "wallpaper_position"@.len());
        assert("launcher_placement"@[0] != "wallpaper_position"@[0]);
        assert("clipboard_placement"@.len() != "wallpaper_position"@.len());
        assert("control_center_placement"@.len() != "wallpaper_position"@.len());
        assert("wallpaper_placement"@.len() != "wallpaper_position"@.len());
        assert("session_placement"@.len() != "wallpaper_position"@.len());
        assert("polkit_placement"@.len() != "wallpaper_position"@.len());
        assert("launcher_position"@.len() != "wallpaper_position"@.len());
        assert("clipboard_position"@[0] != "wallpaper_position"@[0]);
        assert("control_center_position"@.len() != "wallpaper_position"@.len());
        assert(first_key_at(t, "wallpaper_position"@, 13));
        lemma_lookup_at(t, "wallpaper_position"@, 13);
    }
    assert(lookup(t, "session_position"@) == Some(t[14].1)) by {
        reveal_strlit("transparency_mode");
        reveal_strlit("borders");
        reveal_strlit("shadow");
        reveal_strlit("list_item_background");
        reveal_strlit("launcher_placement");
        reveal_strlit("clipboard_placement");
        reveal_strlit("control_center_placement");
        reveal_strlit("wallpaper_placement");
        reveal_strlit("session_placement");
        reveal_strlit("polkit_placement");
        reveal_strlit("launcher_position");
        reveal_strlit("clipboard_position");
        reveal_strlit("control_center_position");
        reveal_strlit("wallpaper_position");
        reveal_strlit("session_position");
        assert("transparency_mode"@.len() != "session_position"@.len());
        assert("borders"@.len() != "session_position"@.len());
        assert("shadow"@.len() != "session_position"@.len());
        assert("list_item_background"@.len() != "session_position"@.len());
        assert("launcher_placement"@.len() != "session_position"@.len());
        assert("clipboard_placement"@.len() != "session_position"@.len());
        assert("control_center_placement"@.len() != "session_position"@.len());
        assert("wallpaper_placement"@.len() != "session_position"@.len());
        assert("session_placement"@.len() != "session_position"@.len());
        assert("polkit_placement"@[0] != "session_position"@[0]);
        assert("launcher_position"@.len() != "session_position"@.len());
        assert("clipboard_position"@.len() != "session_position"@.len());
        assert("control_center_position"@.len() != "session_position"@.len());
        assert("wallpaper_position"@.len() != "session_position"@.len());
        assert(first_key_at(t, "session_position"@, 14));
        lemma_lookup_at(t, "session_position"@, 14);
    }
    assert(lookup(t, "polkit_position"@) == Some(t[15].1)) by {
        reveal_strlit("transparency_mode");
        reveal_strlit("borders");
        reveal_strlit("shadow");
        reveal_strlit("list_item_background");
        reveal_strlit("launcher_placement");
        reveal_strlit("clipboard_placement");
        reveal_strlit("control_center_placement");
        reveal_strlit("wallpaper_placement");
        reveal_strlit("session_placement");
        reveal_strlit("polkit_placement");
        reveal_strlit("launcher_position");
        reveal_strlit("clipboard_position");
        reveal_strlit("control_center_position");
        reveal_strlit("wallpaper_position");
        reveal_strlit("session_position");
        reveal_strlit("polkit_position");
        assert("transparency_mode"@.len() != "polkit_position"@.len());
        assert("borders"@.len() != "polkit_position"@.len());
        assert("shadow"@.len() != "polkit_position"@.len());
        assert("list_item_background"@.len() != "polkit_position"@.len());
        assert("launcher_placement"@.len() != "polkit_position"@.len());
        assert("clipboard_placement"@.len() != "polkit_position"@.len());
        assert("control_center_placement"@.len() != "polkit_position"@.len());
        assert("wallpaper_placement"@.len() != "polkit_position"@.len());
        assert("session_placement"@.len() != "polkit_position"@.len());
        assert("polkit_placement"@.len() != "polkit_position"@.len());
        assert("launcher_position"@.len() != "polkit_position"@.len());
        assert("clipboard_position"@.len() != "polkit_position"@.len());
        assert("control_center_position"@.len() != "polkit_position"@.len());
        assert("wallpaper_position"@.len() != "polkit_position"@.len());
        assert("session_position"@.len() != "polkit_position"@.len());
        assert(first_key_at(t, "polkit_position"@, 15));
        lemma_lookup_at(t, "polkit_position"@, 15);
    }
    assert(lookup(t, "floating_offset"@) == Some(t[16].1)) by {
        reveal_strlit("transparency_mode");
        reveal_strlit("borders");
        reveal_strlit("shadow");
        reveal_strlit("list_item_background");
        reveal_strlit("launcher_placement");
        reveal_strlit("clipboard_placement");
        reveal_strlit("control_center_placement");
        reveal_strlit("wallpaper_placement");
        reveal_strlit("session_placement");
        reveal_strlit("polkit_placement");
        reveal_strlit("launcher_position");
        reveal_strlit("clipboard_position");
        reveal_strlit("control_center_position");
        reveal_strlit("wallpaper_position");
        reveal_strlit("session_position");
        reveal_strlit("polkit_position");
        reveal_strlit("floating_offset");
        assert("transparency_mode"@.len() != "floating_offset"@.len());
        assert("borders"@.len() != "floating_offset"@.len());
        assert("shadow"@.len() != "floating_offset"@.len());
        assert("list_item_background"@.len() != "floating_offset"@.len());
        assert("launcher_placement"@.len() != "floating_offset"@.len());
        assert("clipboard_placement"@.len() != "floating_offset"@.len());
        assert("control_center_placement"@.len() != "floating_offset"@.len());
        assert("wallpaper_placement"@.len() != "floating_offset"@.len());
        assert("session_placement"@.len() != "floating_offset"@.len());
        assert("polkit_placement"@.len() != "floating_offset"@.len());
        assert("launcher_position"@.len() != "floating_offset"@.len());
        assert("clipboard_position"@.len() != "floating_offset"@.len());
        assert("control_center_position"@.len() != "floating_offset"@.len());
        assert("wallpaper_position"@.len() != "floating_offset"@.len());
        assert("session_position"@.len() != "floating_offset"@.len());
        assert("polkit_position"@[0] != "floating_offset"@[0]);
        assert(first_key_at(t, "floating_offset"@, 16));
        lemma_lookup_at(t, "floating_offset"@, 16);
    }
    assert(lookup(t, "open_near_click_control_center"@) == Some(t[17].1)) by {
        reveal_strlit("transparency_mode");
        reveal_strlit("borders");
        reveal_strlit("shadow");
        reveal_strlit("list_item_background");
        reveal_strlit("launcher_placement");
        reveal_strlit("clipboard_placement");
        reveal_strlit("control_center_placement");
        reveal_strlit("wallpaper_placement");
        reveal_strlit("session_placement");
        reveal_strlit("polkit_placement");
        reveal_strlit("launcher_position");
        reveal_strlit("clipboard_position");
        reveal_strlit("control_center_position");
        reveal_strlit("wallpaper_position");
        reveal_strlit("session_position");
        reveal_strlit("polkit_position");
        reveal_strlit("floating_offset");
        reveal_strlit("open_near_click_control_center");
        assert("transparency_mode"@.len() != "open_near_click_control_center"@.len());
        assert("borders"@.len() != "open_near_click_control_center"@.len());
        assert("shadow"@.len() != "open_near_click_control_center"@.len());
        assert("list_item_background"@.len() != "open_near_click_control_center"@.len());
        assert("launcher_placement"@.len() != "open_near_click_control_center"@.len());
        assert("clipboard_placement"@.len() != "open_near_click_control_center"@.len());
        assert("control_center_placement"@.len() != "open_near_click_control_center"@.len());
        assert("wallpaper_placement"@.len() != "open_near_click_control_center"@.len());
        assert("session_placement"@.len() != "open_near_click_control_center"@.len());
        assert("polkit_placement"@.len() != "open_near_click_control_center"@.len());
        assert("launcher_position"@.len() != "open_near_click_control_center"@.len());
        assert("clipboard_position"@.len() != "open_near_click_control_center"@.len());
        assert("control_center_position"@.len() != "open_near_click_control_center"@.len());
        assert("wallpaper_position"@.len() != "open_near_click_control_center"@.len());
        assert("session_position"@.len() != "open_near_click_control_center"@.len());
        assert("polkit_position"@.len() != "open_near_click_control_center"@.len());
        assert("floating_offset"@.len() != "open_near_click_control_center"@.len());
        assert(first_key_at(t, "open_near_click_control_center"@, 17));
        lemma_lookup_at(t, "open_near_click_control_center"@, 17);
    }
    assert(read_bool_field(t, "open_near_click_control_center"@, cur.open_near_click_control_center) == v.open_near_click_control_center) by { reveal(read_bool_field); }
    assert(lookup(t, "open_near_click_launcher"@) == Some(t[18].1)) by {
        reveal_strlit("transparency_mode");
        reveal_strlit("borders");
        reveal_strlit("shadow");
        reveal_strlit("list_item_background");
        reveal_strlit("launcher_placement");
        reveal_strlit("clipboard_placement");
        reveal_strlit("control_center_placement");
        reveal_strlit("wallpaper_placement");
        reveal_strlit("session_placement");
        reveal_strlit("polkit_placement");
        reveal_strlit("launcher_position");
        reveal_strlit("clipboard_position");
        reveal_strlit("control_center_position");
        reveal_strlit("wallpaper_position");
        reveal_strlit("session_position");
        reveal_strlit("polkit_position");
        reveal_strlit("floating_offset");
        reveal_strlit("open_near_click_control_center");
        reveal_strlit("open_near_click_launcher");
        assert("transparency_mode"@.len() != "open_near_click_launcher"@.len());
        assert("borders"@.len() != "open_near_click_launcher"@.len());
        assert("shadow"@.len() != "open_near_click_launcher"@.len());
        assert("list_item_background"@.len() != "open_near_click_launcher"@.len());
        assert("launcher_placement"@.len() != "open_near_click_launcher"@.len());
        assert("clipboard_placement"@.len() != "open_near_click_launcher"@.len());
        assert("control_center_placement"@[0] != "open_near_click_launcher"@[0]);
        assert("wallpaper_placement"@.len() != "open_near_click_launcher"@.len());
        assert("session_placement"@.len() != "open_near_click_launcher"@.len());
        assert("polkit_placement"@.len() != "open_near_click_launcher"@.len());
        assert("launcher_position"@.len() != "open_near_click_launcher"@.len());
        assert("clipboard_position"@.len() != "open_near_click_launcher"@.len());
        assert("control_center_position"@.len() != "open_near_click_launcher"@.len());
        assert("wallpaper_position"@.len() != "open_near_click_launcher"@.len());
        assert("session_position"@.len() != "open_near_click_launcher"@.len());
        assert("polkit_position"@.len() != "open_near_click_launcher"@.len());
        assert("floating_offset"@.len() != "open_near_click_launcher"@.len());
        assert("open_near_click_control_center"@.len() != "open_near_click_launcher"@.len());
        assert(first_key_at(t, "open_near_click_launcher"@, 18));
        lemma_lookup_at(t, "open_near_click_launcher"@, 18);
    }
    assert(read_bool_field(t, "open_near_click_launcher"@, cur.open_near_click_launcher) == v.open_near_click_launcher) by { reveal(read_bool_field); }
    assert(lookup(t, "open_near_click_clipboard"@) == Some(t[19].1)) by {
        reveal_strlit("transparency_mode");
        reveal_strlit("borders");
        reveal_strlit("shadow");
        reveal_strlit("list_item_background");
        reveal_strlit("launcher_placement");
        reveal_strlit("clipboard_placement");
        reveal_strlit("control_center_placement");
        reveal_strlit("wallpaper_placement");
        reveal_strlit("session_placement");
        reveal_strlit("polkit_placement");
        reveal_strlit("launcher_position");
        reveal_strlit("clipboard_position");
        reveal_strlit("control_center_position");
        reveal_strlit("wallpaper_position");
        reveal_strlit("session_position");
        reveal_strlit("polkit_position");
        reveal_strlit("floating_offset");
        reveal_strlit("open_near_click_control_center");
        reveal_strlit("open_near_click_launcher");
        reveal_strlit("open_near_click_clipboard");
        assert("transparency_mode"@.len() != "open_near_click_clipboard"@.len());
        assert("borders"@.len() != "open_near_click_clipboard"@.len());
        assert("shadow"@.len() != "open_near_click_clipboard"@.len());
        assert("list_item_background"@.len() != "open_near_click_clipboard"@.len());
        assert("launcher_placement"@.len() != "open_near_click_clipboard"@.len());
        assert("clipboard_placement"@.len() != "open_near_click_clipboard"@.len());
        assert("control_center_placement"@.len() != "open_near_click_clipboard"@.len());
        assert("wallpaper_placement"@.len() != "open_near_click_clipboard"@.len());
        assert("session_placement"@.len() != "open_near_click_clipboard"@.len());
        assert("polkit_placement"@.len() != "open_near_click_clipboard"@.len());
        assert("launcher_position"@.len() != "open_near_click_clipboard"@.len());
        assert("clipboard_position"@.len() != "open_near_click_clipboard"@.len());
        assert("control_center_position"@.len() != "open_near_click_clipboard"@.len());
        assert("wallpaper_position"@.len() != "open_near_click_clipboard"@.len());
        assert("session_position"@.len() != "open_near_click_clipboard"@.len());
        assert("polkit_position"@.len() != "open_near_click_clipboard"@.len());
        assert("floating_offset"@.len() != "open_near_click_clipboard"@.len());
        assert("open_near_click_control_center"@.len() != "open_near_click_clipboard"@.len());
        assert("open_near_click_launcher"@.len() != "open_near_click_clipboard"@.len());
        assert(first_key_at(t, "open_near_click_clipboard"@, 19));
        lemma_lookup_at(t, "open_near_click_clipboard"@, 19);
    }
    assert(read_bool_field(t, "open_near_click_clipboard"@, cur.open_near_click_clipboard) == v.open_near_click_clipboard) by { reveal(read_bool_field); }
    assert(lookup(t, "open_near_click_wallpaper"@) == Some(t[20].1)) by {
        reveal_strlit("transparency_mode");
        reveal_strlit("borders");
        reveal_strlit("shadow");
        reveal_strlit("list_item_background");
        reveal_strlit("launcher_placement");
        reveal_strlit("clipboard_placement");
        reveal_strlit("control_center_placement");
        reveal_strlit("wallpaper_placement");
        reveal_strlit("session_placement");
        reveal_strlit("polkit_placement");
        reveal_strlit("launcher_position");
        reveal_strlit("clipboard_position");
        reveal_strlit("control_center_position");
        reveal_strlit("wallpaper_position");
        reveal_strlit("session_position");
        reveal_strlit("polkit_position");
        reveal_strlit("floating_offset");
        reveal_strlit("open_near_click_control_center");
        reveal_strlit("open_near_click_launcher");
        reveal_strlit("open_near_click_clipboard");
        reveal_strlit("open_near_click_wallpaper");
        assert("transparency_mode"@.len() != "open_near_click_wallpaper"@.len());
        assert("borders"@.len() != "open_near_click_wallpaper"@.len());
        assert("shadow"@.len() != "open_near_click_wallpaper"@.len());
        assert("list_item_background"@.len() != "open_near_click_wallpaper"@.len());
        assert("launcher_placement"@.len() != "open_near_click_wallpaper"@.len());
        assert("clipboard_placement"@.len() != "open_near_click_wallpaper"@.len());
        assert("control_center_placement"@.len() != "open_near_click_wallpaper"@.len());
        assert("wallpaper_placement"@.len() != "open_near_click_wallpaper"@.len());
        assert("session_placement"@.len() != "open_near_click_wallpaper"@.len());
        assert("polkit_placement"@.len() != "open_near_click_wallpaper"@.len());
        assert("launcher_position"@.len() != "open_near_click_wallpaper"@.len());
        assert("clipboard_position"@.len() != "open_near_click_wallpaper"@.len());
        assert("control_center_position"@.len() != "open_near_click_wallpaper"@.len());
        assert("wallpaper_position"@.len() != "open_near_click_wallpaper"@.len());
        assert("session_position"@.len() != "open_near_click_wallpaper"@.len());
        assert("polkit_position"@.len() != "open_near_click_wallpaper"@.len());
        assert("floating_offset"@.len() != "open_near_click_wallpaper"@.len());
        assert("open_near_click_control_center"@.len() != "open_near_click_wallpaper"@.len());
        assert("open_near_click_launcher"@.len() != "open_near_click_wallpaper"@.len());
        assert("open_near_click_clipboard"@[16] != "open_near_click_wallpaper"@[16]);
        assert(first_key_at(t, "open_near_click_wallpaper"@, 20));
        lemma_lookup_at(t, "open_near_click_wallpaper"@, 20);
    }
    assert(read_bool_field(t, "open_near_click_wallpaper"@, cur.open_near_click_wallpaper) == v.open_near_click_wallpaper) by { reveal(read_bool_field); }
    assert(lookup(t, "open_near_click_session"@) == Some(t[21].1)) by {
        reveal_strlit("transparency_mode");
        reveal_strlit("borders");
        reveal_strlit("shadow");
        reveal_strlit("list_item_background");
        reveal_strlit("launcher_placement");
        reveal_strlit("clipboard_placement");
        reveal_strlit("control_center_placement");
        reveal_strlit("wallpaper_placement");
        reveal_strlit("session_placement");
        reveal_strlit("polkit_placement");
        reveal_strlit("launcher_position");
        reveal_strlit("clipboard_position");
        reveal_strlit("control_center_position");
        reveal_strlit("wallpaper_position");
        reveal_strlit("session_position");
        reveal_strlit("polkit_position");
        reveal_strlit("floating_offset");
        reveal_strlit("open_near_click_control_center");
        reveal_strlit("open_near_click_launcher");
        reveal_strlit("open_near_click_clipboard");
        reveal_strlit("open_near_click_wallpaper");
        reveal_strlit("open_near_click_session");
        assert("transparency_mode"@.len() != "open_near_click_session"@.len());
        assert("borders"@.len() != "open_near_click_session"@.len());
        assert("shadow"@.len() != "open_near_click_session"@.len());
        assert("list_item_background"@.len() != "open_near_click_session"@.len());
        assert("launcher_placement"@.len() != "open_near_click_session"@.len());
        assert("clipboard_placement"@.len() != "open_near_click_session"@.len());
        assert("control_center_placement"@.len() != "open_near_click_session"@.len());
        assert("wallpaper_placement"@.len() != "open_near_click_session"@.len());
        assert("session_placement"@.len() != "open_near_click_session"@.len());
        assert("polkit_placement"@.len() != "open_near_click_session"@.len());
        assert("launcher_position"@.len() != "open_near_click_session"@.len());
        assert("clipboard_position"@.len() != "open_near_click_session"@.len());
        assert("control_center_position"@[0] != "open_near_click_session"@[0]);
        assert("wallpaper_position"@.len() != "open_near_click_session"@.len());
        assert("session_position"@.len() != "open_near_click_session"@.len());
        assert("polkit_position"@.len() != "open_near_click_session"@.len());
        assert("floating_offset"@.len() != "open_near_click_session"@.len());
        assert("open_near_click_control_center"@.len() != "open_near_click_session"@.len());
        assert("open_near_click_launcher"@.len() != "open_near_click_session"@.len());
        assert("open_near_click_clipboard"@.len() != "open_near_click_session"@.len());
        assert("open_near_click_wallpaper"@.len() != "open_near_click_session"@.len());
        assert(first_key_at(t, "open_near_click_session"@, 21));
        lemma_lookup_at(t, "open_near_click_session"@, 21);
    }
    assert(read_bool_field(t, "open_near_click_session"@, cur.open_near_click_session) == v.open_near_click_session) by { reveal(read_bool_field); }
}

/// The content of a [`ScreenCornersConfig`].
pub struct ScreenCornersConfigView {
    pub enabled: bool,
    pub size: i32,
}

impl View for ScreenCornersConfig {
    type V = ScreenCornersConfigView;

    open spec fn view(&self) -> ScreenCornersConfigView {
        ScreenCornersConfigView {
            enabled: self.enabled,
            size: self.size,
        }
    }
}

/// `cur` with the fields that `t` sets read from it.
pub open spec fn spec_read_shell_screen_corners(cur: ScreenCornersConfigView, t: TableData) -> ScreenCornersConfigView {
    ScreenCornersConfigView {
        enabled: read_bool_field(t, "enabled"@, cur.enabled),
        size: read_int_field(t, "size"@, Some((1i64, 100i64)), cur.size),
    }
}

/// The table `v` is written as: every field, in schema order.
pub open spec fn spec_write_shell_screen_corners(v: ScreenCornersConfigView) -> TableData {
    seq![("enabled"@, TomlData::Boolean(v.enabled)), ("size"@, TomlData::Integer(v.size as i64))]
}

/// Reads the fields that `t` sets into `out`; see [`spec_read_shell_screen_corners`].
pub fn read_shell_screen_corners(t: &TomlTable, out: &mut ScreenCornersConfig)
    ensures
        final(out)@ == spec_read_shell_screen_corners(old(out)@, t@),
{
    let enabled = get_bool(t, "enabled", out.enabled);
    out.enabled = enabled;
    out.size = get_int(t, "size", Some((1i64, 100i64)), out.size);
}

/// Writes every field of `v`, in schema order; see [`spec_write_shell_screen_corners`].
pub fn write_shell_screen_corners(v: &ScreenCornersConfig) -> (t: TomlTable)
    ensures
        t@ == spec_write_shell_screen_corners(v@),
{
    let t = TomlTable { entries: vec![bool_entry("enabled", v.enabled), int_entry("size", v.size)] };
    proof {
        lemma_entries_data(t.entries@, t.entries@.len() as int);
        assert(t@ =~= spec_write_shell_screen_corners(v@));
    }
    t
}

/// Reading a written ScreenCornersConfig back gives it (paths read without a home directory).
pub proof fn lemma_shell_screen_corners_round_trip(cur: ScreenCornersConfigView, v: ScreenCornersConfigView)
    requires
        1i64 <= v.size <= 100i64,
    ensures
        spec_read_shell_screen_corners(cur, spec_write_shell_screen_corners(v)) == (ScreenCornersConfigView { enabled: v.enabled, size: v.size }),
{
    let t = spec_write_shell_screen_corners(v);
    assert(lookup(t, "enabled"@) == Some(t[0].1)) by {
        reveal_strlit("enabled");
        assert(first_key_at(t, "enabled"@, 0));
        lemma_lookup_at(t, "enabled"@, 0);
    }
    assert(read_bool_field(t, "enabled"@, cur.enabled) == v.enabled) by { reveal(read_bool_field); }
    assert(lookup(t, "size"@) == Some(t[1].1)) by {
        reveal_strlit("enabled");
        reveal_strlit("size");
        assert("enabled"@.len() != "size"@.len());
        assert(first_key_at(t, "size"@, 1));
        lemma_lookup_at(t, "size"@, 1);
    }
}

/// The content of a [`MprisConfig`].
pub struct MprisConfigView {
    pub blacklist: Seq<Seq<char>>,
}

impl View for MprisConfig {
    type V = MprisConfigView;

    open spec fn view(&self) -> MprisConfigView {
        MprisConfigView {
            blacklist: string_list_view(self.blacklist@),
        }
    }
}

/// `cur` with the fields that `t` sets read from it.
pub open spec fn spec_read_shell_mpris(cur: MprisConfigView, t: TableData) -> MprisConfigView {
    MprisConfigView {
        blacklist: read_strings_field(t, "blacklist"@, cur.blacklist),
    }
}

/// The table `v` is written as: every field, in schema order.
pub open spec fn spec_write_shell_mpris(v: MprisConfigView) -> TableData {
    seq![("blacklist"@, strings_array(v.blacklist))]
}

/// Reads the fields that `t` sets into `out`; see [`spec_read_shell_mpris`].
pub fn read_shell_mpris(t: &TomlTable, out: &mut MprisConfig)
    ensures
        final(out)@ == spec_read_shell_mpris(old(out)@, t@),
{
    get_strings(t, "blacklist", &mut out.blacklist);
}

/// Writes every field of `v`, in schema order; see [`spec_write_shell_mpris`].
pub fn write_shell_mpris(v: &MprisConfig) -> (t: TomlTable)
    ensures
        t@ == spec_write_shell_mpris(v@),
{
    let t = TomlTable { entries: vec![strings_entry("blacklist", &v.blacklist)] };
    proof {
        lemma_entries_data(t.entries@, t.entries@.len() as int);
        assert(t@ =~= spec_write_shell_mpris(v@));
    }
    t
}

/// Reading a written MprisConfig back gives it (paths read without a home directory).
pub proof fn lemma_shell_mpris_round_trip(cur: MprisConfigView, v: MprisConfigView)
    ensures
        spec_read_shell_mpris(cur, spec_write_shell_mpris(v)) == (MprisConfigView { blacklist: v.blacklist }),
{
    let t = spec_write_shell_mpris(v);
    assert(lookup(t, "blacklist"@) == Some(t[0].1)) by {
        reveal_strlit("blacklist");
        assert(first_key_at(t, "blacklist"@, 0));
        lemma_lookup_at(t, "blacklist"@, 0);
    }
    lemma_strings_round_trip(v.blacklist);
}

/// The content of a [`ScreenshotConfig`].
pub struct ScreenshotConfigView {
    pub save_to_file: bool,
    pub copy_to_clipboard: bool,
    pub freeze_screen: bool,
    pub confirm_region: bool,
    pub show_cursor: bool,
    pub pipe_to_command: bool,
    pub pipe_command: Seq<char>,
    pub directory: Seq<char>,
    pub filename_pattern: Seq<char>,
}

impl View for ScreenshotConfig {
    type V = ScreenshotConfigView;

    open spec fn view(&self) -> ScreenshotConfigView {
        ScreenshotConfigView {
            save_to_file: self.save_to_file,
            copy_to_clipboard: self.copy_to_clipboard,
            freeze_screen: self.freeze_screen,
            confirm_region: self.confirm_region,
            show_cursor: self.show_cursor,
            pipe_to_command: self.pipe_to_command,
            pipe_command: self.pipe_command@,
            directory: self.directory@,
            filename_pattern: self.filename_pattern@,
        }
    }
}

/// `cur` with the fields that `t` sets read from it.
pub open spec fn spec_read_shell_screenshot(cur: ScreenshotConfigView, t: TableData, home: Option<Seq<char>>) -> ScreenshotConfigView {
    ScreenshotConfigView {
        directory: read_path_field(t, "directory"@, home, cur.directory),
        pipe_to_command: read_bool_field(t, "pipe_to_command"@, cur.pipe_to_command),
        ..cur
    }
}

/// The table `v` is written as: every field, in schema order.
pub open spec fn spec_write_shell_screenshot(v: ScreenshotConfigView) -> TableData {
    seq![("directory"@, TomlData::String(v.directory)), ("pipe_to_command"@, TomlData::Boolean(v.pipe_to_command))]
}

/// Reads the fields that `t` sets into `out`; see [`spec_read_shell_screenshot`].
pub fn read_shell_screenshot(t: &TomlTable, out: &mut ScreenshotConfig, home: Option<&str>)
    ensures
        final(out)@ == spec_read_shell_screenshot(old(out)@, t@, home_view(home)),
{
    get_path(t, "directory", home, &mut out.directory);
    let pipe_to_command = get_bool(t, "pipe_to_command", out.pipe_to_command);
    out.pipe_to_command = pipe_to_command;
}

/// Writes every field of `v`, in schema order; see [`spec_write_shell_screenshot`].
pub fn write_shell_screenshot(v: &ScreenshotConfig) -> (t: TomlTable)
    ensures
        t@ == spec_write_shell_screenshot(v@),
{
    let t = TomlTable { entries: vec![string_entry("directory", &v.directory), bool_entry("pipe_to_command", v.pipe_to_command)] };
    proof {
        lemma_entries_data(t.entries@, t.entries@.len() as int);
        assert(t@ =~= spec_write_shell_screenshot(v@));
    }
    t
}

/// Reading a written ScreenshotConfig back gives it (paths read without a home directory).
pub proof fn lemma_shell_screenshot_round_trip(cur: ScreenshotConfigView, v: ScreenshotConfigView)
    ensures
        spec_read_shell_screenshot(cur, spec_write_shell_screenshot(v), None) == (ScreenshotConfigView { directory: v.directory, pipe_to_command: v.pipe_to_command, ..cur }),
{
    let t = spec_write_shell_screenshot(v);
    assert(lookup(t, "directory"@) == Some(t[0].1)) by {
        reveal_strlit("directory");
        assert(first_key_at(t, "directory"@, 0));
        lemma_lookup_at(t, "directory"@, 0);
    }
    assert(lookup(t, "pipe_to_command"@) == Some(t[1].1)) by {
        reveal_strlit("directory");
        reveal_strlit("pipe_to_command");
        assert("directory"@.len() != "pipe_to_command"@.len());
        assert(first_key_at(t, "pipe_to_command"@, 1));
        lemma_lookup_at(t, "pipe_to_command"@, 1);
    }
    assert(read_bool_field(t, "pipe_to_command"@, cur.pipe_to_command) == v.pipe_to_command) by { reveal(read_bool_field); }
}

/// The content of a [`PrivacyConfig`].
pub struct PrivacyConfigView {
    pub mic_filter_regex: Seq<char>,
    pub cam_filter_regex: Seq<char>,
    pub screen_filter_regex: Seq<char>,
}

impl View for PrivacyConfig {
    type V = PrivacyConfigView;

    open spec fn view(&self) -> PrivacyConfigView {
        PrivacyConfigView {
            mic_filter_regex: self.mic_filter_regex@,
            cam_filter_regex: self.cam_filter_regex@,
            screen_filter_regex: self.screen_filter_regex@,
        }
    }
}

/// `cur` with the fields that `t` sets read from it.
pub open spec fn spec_read_shell_privacy(cur: PrivacyConfigView, t: TableData) -> PrivacyConfigView {
    PrivacyConfigView {
        mic_filter_regex: read_string_field(t, "mic_filter_regex"@, cur.mic_filter_regex),
        cam_filter_regex: read_string_field(t, "cam_filter_regex"@, cur.cam_filter_regex),
        screen_filter_regex: read_string_field(t, "screen_filter_regex"@, cur.screen_filter_regex),
    }
}

/// The table `v` is written as: every field, in schema order.
pub open spec fn spec_write_shell_privacy(v: PrivacyConfigView) -> TableData {
    seq![("mic_filter_regex"@, TomlData::String(v.mic_filter_regex)), ("cam_filter_regex"@, TomlData::String(v.cam_filter_regex)), ("screen_filter_regex"@, TomlData::String(v.screen_filter_regex))]
}

/// Reads the fields that `t` sets into `out`; see [`spec_read_shell_privacy`].
pub fn read_shell_privacy(t: &TomlTable, out: &mut PrivacyConfig)
    ensures
        final(out)@ == spec_read_shell_privacy(old(out)@, t@),
{
    get_string(t, "mic_filter_regex", &mut out.mic_filter_regex);
    get_string(t, "cam_filter_regex", &mut out.cam_filter_regex);
    get_string(t, "screen_filter_regex", &mut out.screen_filter_regex);
}

/// Writes every field of `v`, in schema order; see [`spec_write_shell_privacy`].
pub fn write_shell_privacy(v: &PrivacyConfig) -> (t: TomlTable)
    ensures
        t@ == spec_write_shell_privacy(v@),
{
    let t = TomlTable { entries: vec![string_entry("mic_filter_regex", &v.mic_filter_regex), string_entry("cam_filter_regex", &v.cam_filter_regex), string_entry("screen_filter_regex", &v.screen_filter_regex)] };
    proof {
        lemma_entries_data(t.entries@, t.entries@.len() as int);
        assert(t@ =~= spec_write_shell_privacy(v@));
    }
    t
}

/// Reading a written PrivacyConfig back gives it (paths read without a home directory).
pub proof fn lemma_shell_privacy_round_trip(cur: PrivacyConfigView, v: PrivacyConfigView)
    ensures
        spec_read_shell_privacy(cur, spec_write_shell_privacy(v)) == (PrivacyConfigView { mic_filter_regex: v.mic_filter_regex, cam_filter_regex: v.cam_filter_regex, screen_filter_regex: v.screen_filter_regex }),
{
    let t = spec_write_shell_privacy(v);
    assert(lookup(t, "mic_filter_regex"@) == Some(t[0].1)) by {
        reveal_strlit("mic_filter_regex");
        assert(first_key_at(t, "mic_filter_regex"@, 0));
        lemma_lookup_at(t, "mic_filter_regex"@, 0);
    }
    assert(lookup(t, "cam_filter_regex"@) == Some(t[1].1)) by {
        reveal_strlit("mic_filter_regex");
        reveal_strlit("cam_filter_regex");
        assert("mic_filter_regex"@[0] != "cam_filter_regex"@[0]);
        assert(first_key_at(t, "cam_filter_regex"@, 1));
        lemma_lookup_at(t, "cam_filter_regex"@, 1);
    }
    assert(lookup(t, "screen_filter_regex"@) == Some(t[2].1)) by {
        reveal_strlit("mic_filter_regex");
        reveal_strlit("cam_filter_regex");
        reveal_strlit("screen_filter_regex");
        assert("mic_filter_regex"@.len() != "screen_filter_regex"@.len());
        assert("cam_filter_regex"@.len() != "screen_filter_regex"@.len());
        assert(first_key_at(t, "screen_filter_regex"@, 2));
        lemma_lookup_at(t, "screen_filter_regex"@, 2);
    }
}

/// The content of a [`OsdKindsConfig`].
pub struct OsdKindsConfigView {
    pub volume: bool,
    pub volume_output: bool,
    pub volume_input: bool,
    pub brightness: bool,
    pub wifi: bool,
    pub bluetooth: bool,
    pub power_profile: bool,
    pub caffeine: bool,
    pub nightlight: bool,
    pub dnd: bool,
    pub lock_keys: bool,
    pub keyboard_layout: bool,
    pub media: bool,
    pub privacy: bool,
    pub keyboard_backlight: bool,
}

impl View for OsdKindsConfig {
    type V = OsdKindsConfigView;

    open spec fn view(&self) -> OsdKindsConfigView {
        OsdKindsConfigView {
            volume: self.volume,
            volume_output: self.volume_output,
            volume_input: self.volume_input,
            brightness: self.brightness,
            wifi: self.wifi,
            bluetooth: self.bluetooth,
            power_profile: self.power_profile,
            caffeine: self.caffeine,
            nightlight: self.nightlight,
            dnd: self.dnd,
            lock_keys: self.lock_keys,
            keyboard_layout: self.keyboard_layout,
            media: self.media,
            privacy: self.privacy,
            keyboard_backlight: self.keyboard_backlight,
        }
    }
}

/// `cur` with the fields that `t` sets read from it.
pub open spec fn spec_read_osd_kinds(cur: OsdKindsConfigView, t: TableData) -> OsdKindsConfigView {
    OsdKindsConfigView {
        volume: read_bool_field(t, "volume"@, cur.volume),
        volume_output: read_bool_field(t, "volume_output"@, cur.volume_output),
        volume_input: read_bool_field(t, "volume_input"@, cur.volume_input),
        brightness: read_bool_field(t, "brightness"@, cur.brightness),
        wifi: read_bool_field(t, "wifi"@, cur.wifi),
        bluetooth: read_bool_field(t, "bluetooth"@, cur.bluetooth),
        power_profile: read_bool_field(t, "power_profile"@, cur.power_profile),
        caffeine: read_bool_field(t, "caffeine"@, cur.caffeine),
        nightlight: read_bool_field(t, "nightlight"@, cur.nightlight),
        dnd: read_bool_field(t, "dnd"@, cur.dnd),
        lock_keys: read_bool_field(t, "lock_keys"@, cur.lock_keys),
        keyboard_layout: read_bool_field(t, "keyboard_layout"@, cur.keyboard_layout),
        media: read_bool_field(t, "media"@, cur.media),
        privacy: read_bool_field(t, "privacy"@, cur.privacy),
        keyboard_backlight: read_bool_field(t, "keyboard_backlight"@, cur.keyboard_backlight),
    }
}

/// The table `v` is written as: every field, in schema order.
pub open spec fn spec_write_osd_kinds(v: OsdKindsConfigView) -> TableData {
    seq![("volume"@, TomlData::Boolean(v.volume)), ("volume_output"@, TomlData::Boolean(v.volume_output)), ("volume_input"@, TomlData::Boolean(v.volume_input)), ("brightness"@, TomlData::Boolean(v.brightness)), ("wifi"@, TomlData::Boolean(v.wifi)), ("bluetooth"@, TomlData::Boolean(v.bluetooth)), ("power_profile"@, TomlData::Boolean(v.power_profile)), ("caffeine"@, TomlData::Boolean(v.caffeine)), ("nightlight"@, TomlData::Boolean(v.nightlight)), ("dnd"@, TomlData::Boolean(v.dnd)), ("lock_keys"@, TomlData::Boolean(v.lock_keys)), ("keyboard_layout"@, TomlData::Boolean(v.keyboard_layout)), ("media"@, TomlData::Boolean(v.media)), ("privacy"@, TomlData::Boolean(v.privacy)), ("keyboard_backlight"@, TomlData::Boolean(v.keyboard_backlight))]
}

/// Reads the fields that `t` sets into `out`; see [`spec_read_osd_kinds`].
#[verifier::spinoff_prover]
#[verifier::rlimit(80)]
pub fn read_osd_kinds(t: &TomlTable, out: &mut OsdKindsConfig)
    ensures
        final(out)@ == spec_read_osd_kinds(old(out)@, t@),
{
    let volume = get_bool(t, "volume", out.volume);
    let volume_output = get_bool(t, "volume_output", out.volume_output);
    let volume_input = get_bool(t, "volume_input", out.volume_input);
    let brightness = get_bool(t, "brightness", out.brightness);
    let wifi = get_bool(t, "wifi", out.wifi);
    let bluetooth = get_bool(t, "bluetooth", out.bluetooth);
    let power_profile = get_bool(t, "power_profile", out.power_profile);
    let caffeine = get_bool(t, "caffeine", out.caffeine);
    let nightlight = get_bool(t, "nightlight", out.nightlight);
    let dnd = get_bool(t, "dnd", out.dnd);
    let lock_keys = get_bool(t, "lock_keys", out.lock_keys);
    let keyboard_layout = get_bool(t, "keyboard_layout", out.keyboard_layout);
    let media = get_bool(t, "media", out.media);
    let privacy = get_bool(t, "privacy", out.privacy);
    let keyboard_backlight = get_bool(t, "keyboard_backlight", out.keyboard_backlight);
    *out = OsdKindsConfig { volume, volume_output, volume_input, brightness, wifi, bluetooth, power_profile, caffeine, nightlight, dnd, lock_keys, keyboard_layout, media, privacy, keyboard_backlight };
}

/// Writes every field of `v`, in schema order; see [`spec_write_osd_kinds`].
#[verifier::spinoff_prover]
#[verifier::rlimit(80)]
pub fn write_osd_kinds(v: &OsdKindsConfig) -> (t: TomlTable)
    ensures
        t@ == spec_write_osd_kinds(v@),
{
    let t = TomlTable { entries: vec![bool_entry("volume", v.volume), bool_entry("volume_output", v.volume_output), bool_entry("volume_input", v.volume_input), bool_entry("brightness", v.brightness), bool_entry("wifi", v.wifi), bool_entry("bluetooth", v.bluetooth), bool_entry("power_profile", v.power_profile), bool_entry("caffeine", v.caffeine), bool_entry("nightlight", v.nightlight), bool_entry("dnd", v.dnd), bool_entry("lock_keys", v.lock_keys), bool_entry("keyboard_layout", v.keyboard_layout), bool_entry("media", v.media), bool_entry("privacy", v.privacy), bool_entry("keyboard_backlight", v.keyboard_backlight)] };
    proof {
        lemma_entries_data(t.entries@, t.entries@.len() as int);
        assert(t@ =~= spec_write_osd_kinds(v@));
    }
    t
}

/// Reading a written OsdKindsConfig back gives it (paths read without a home directory).
#[verifier::spinoff_prover]
#[verifier::rlimit(100)]
pub proof fn lemma_osd_kinds_round_trip(cur: OsdKindsConfigView, v: OsdKindsConfigView)
    ensures
        spec_read_osd_kinds(cur, spec_write_osd_kinds(v)) == (OsdKindsConfigView { volume: v.volume, volume_output: v.volume_output, volume_input: v.volume_input, brightness: v.brightness, wifi: v.wifi, bluetooth: v.bluetooth, power_profile: v.power_profile, caffeine: v.caffeine, nightlight: v.nightlight, dnd: v.dnd, lock_keys: v.lock_keys, keyboard_layout: v.keyboard_layout, media: v.media, privacy: v.privacy, keyboard_backlight: v.keyboard_backlight }),
{
    let t = spec_write_osd_kinds(v);
    reveal_strlit("volume");
    reveal_strlit("volume_output");
    reveal_strlit("volume_input");
    reveal_strlit("brightness");
    reveal_strlit("wifi");
    reveal_strlit("bluetooth");
    reveal_strlit("power_profile");
    reveal_strlit("caffeine");
    reveal_strlit("nightlight");
    reveal_strlit("dnd");
    reveal_strlit("lock_keys");
    reveal_strlit("keyboard_layout");
    reveal_strlit("media");
    reveal_strlit("privacy");
    reveal_strlit("keyboard_backlight");
    assert("volume"@.len() != "volume_output"@.len());
    assert("volume"@.len() != "volume_input"@.len());
    assert("volume_output"@.len() != "volume_input"@.len());
    assert("volume"@.len() != "brightness"@.len());
    assert("volume_output"@.len() != "brightness"@.len());
    assert("volume_input"@.len() != "brightness"@.len());
    assert("volume"@.len() != "wifi"@.len());
    assert("volume_output"@.len() != "wifi"@.len());
    assert("volume_input"@.len() != "wifi"@.len());
    assert("brightness"@.len() != "wifi"@.len());
    assert("volume"@.len() != "bluetooth"@.len());
    assert("volume_output"@.len() != "bluetooth"@.len());
    assert("volume_input"@.len() != "bluetooth"@.len());
    assert("brightness"@.len() != "bluetooth"@.len());
    assert("wifi"@.len() != "bluetooth"@.len());
    assert("volume"@.len() != "power_profile"@.len());
    assert("volume_output"@[0] != "power_profile"@[0]);
    assert("volume_input"@.len() != "power_profile"@.len());
    assert("brightness"@.len() != "power_profile"@.len());
    assert("wifi"@.len() != "power_profile"@.len());
    assert("bluetooth"@.len() != "power_profile"@.len());
    assert("volume"@.len() != "caffeine"@.len());
    assert("volume_output"@.len() != "caffeine"@.len());
    assert("volume_input"@.len() != "caffeine"@.len());
    assert("brightness"@.len() != "caffeine"@.len());
    assert("wifi"@.len() != "caffeine"@.len());
    assert("bluetooth"@.len() != "caffeine"@.len());
    assert("power_profile"@.len() != "caffeine"@.len());
    assert("volume"@.len() != "nightlight"@.len());
    assert("volume_output"@.len() != "nightlight"@.len());
    assert("volume_input"@.len() != "nightlight"@.len());
    assert("brightness"@[0] != "nightlight"@[0]);
    assert("wifi"@.len() != "nightlight"@.len());
    assert("bluetooth"@.len() != "nightlight"@.len());
    assert("power_profile"@.len() != "nightlight"@.len());
    assert("caffeine"@.len() != "nightlight"@.len());
    assert("volume"@.len() != "dnd"@.len());
    assert("volume_output"@.len() != "dnd"@.len());
    assert("volume_input"@.len() != "dnd"@.len());
    assert("brightness"@.len() != "dnd"@.len());
    assert("wifi"@.len() != "dnd"@.len());
    assert("bluetooth"@.len() != "dnd"@.len());
    assert("power_profile"@.len() != "dnd"@.len());
    assert("caffeine"@.len() != "dnd"@.len());
    assert("nightlight"@.len() != "dnd"@.len());
    assert("volume"@.len() != "lock_keys"@.len());
    assert("volume_output"@.len() != "lock_keys"@.len());
    assert("volume_input"@.len() != "lock_keys"@.len());
    assert("brightness"@.len() != "lock_keys"@.len());
    assert("wifi"@.len() != "lock_keys"@.len());
    assert("bluetooth"@[0] != "lock_keys"@[0]);
    assert("power_profile"@.len() != "lock_keys"@.len());
    assert("caffeine"@.len() != "lock_keys"@.len());
    assert("nightlight"@.len() != "lock_keys"@.len());
    assert("dnd"@.len() != "lock_keys"@.len());
    assert("volume"@.len() != "keyboard_layout"@.len());
    assert("volume_output"@.len() != "keyboard_layout"@.len());
    assert("volume_input"@.len() != "keyboard_layout"@.len());
    assert("brightness"@.len() != "keyboard_layout"@.len());
    assert("wifi"@.len() != "keyboard_layout"@.len());
    assert("bluetooth"@.len() != "keyboard_layout"@.len());
    assert("power_profile"@.len() != "keyboard_layout"@.len());
    assert("caffeine"@.len() != "keyboard_layout"@.len());
    assert("nightlight"@.len() != "keyboard_layout"@.len());
    assert("dnd"@.len() != "keyboard_layout"@.len());
    assert("lock_keys"@.len() != "keyboard_layout"@.len());
    assert("volume"@.len() != "media"@.len());
    assert("volume_output"@.len() != "media"@.len());
    assert("volume_input"@.len() != "media"@.len());
    assert("brightness"@.len() != "media"@.len());
    assert("wifi"@.len() != "media"@.len());
    assert("bluetooth"@.len() != "media"@.len());
    assert("power_profile"@.len() != "media"@.len());
    assert("caffeine"@.len() != "media"@.len());
    assert("nightlight"@.len() != "media"@.len());
    assert("dnd"@.len() != "media"@.len());
    assert("lock_keys"@.len() != "media"@.len());
    assert("keyboard_layout"@.len() != "media"@.len());
    assert("volume"@.len() != "privacy"@.len());
    assert("volume_output"@.len() != "privacy"@.len());
    assert("volume_input"@.len() != "privacy"@.len());
    assert("brightness"@.len() != "privacy"@.len());
    assert("wifi"@.len() != "privacy"@.len());
    assert("bluetooth"@.len() != "privacy"@.len());
    assert("power_profile"@.len() != "privacy"@.len());
    assert("caffeine"@.len() != "privacy"@.len());
    assert("nightlight"@.len() != "privacy"@.len());
    assert("dnd"@.len() != "privacy"@.len());
    assert("lock_keys"@.len() != "privacy"@.len());
    assert("keyboard_layout"@.len() != "privacy"@.len());
    assert("media"@.len() != "privacy"@.len());
    assert("volume"@.len() != "keyboard_backlight"@.len());
    assert("volume_output"@.len() != "keyboard_backlight"@.len());
    assert("volume_input"@.len() != "keyboard_backlight"@.len());
    assert("brightness"@.len() != "keyboard_backlight"@.len());
    assert("wifi"@.len() != "keyboard_backlight"@.len());
    assert("bluetooth"@.len() != "keyboard_backlight"@.len());
    assert("power_profile"@.len() != "keyboard_backlight"@.len());
    assert("caffeine"@.len() != "keyboard_backlight"@.len());
    assert("nightlight"@.len() != "keyboard_backlight"@.len());
    assert("dnd"@.len() != "keyboard_backlight"@.len());
    assert("lock_keys"@.len() != "keyboard_backlight"@.len());
    assert("keyboard_layout"@.len() != "keyboard_backlight"@.len());
    assert("media"@.len() != "keyboard_backlight"@.len());
    assert("privacy"@.len() != "keyboard_backlight"@.len());
    assert(crate::value::keys_distinct(t));
    crate::schema::template_section::lemma_lookup_distinct(t, 0);
    crate::schema::template_section::lemma_lookup_distinct(t, 1);
    crate::schema::template_section::lemma_lookup_distinct(t, 2);
    crate::schema::template_section::lemma_lookup_distinct(t, 3);
    crate::schema::template_section::lemma_lookup_distinct(t, 4);
    crate::schema::template_section::lemma_lookup_distinct(t, 5);
    crate::schema::template_section::lemma_lookup_distinct(t, 6);
    crate::schema::template_section::lemma_lookup_distinct(t, 7);
    crate::schema::template_section::lemma_lookup_distinct(t, 8);
    crate::schema::template_section::lemma_lookup_distinct(t, 9);
    crate::schema::template_section::lemma_lookup_distinct(t, 10);
    crate::schema::template_section::lemma_lookup_distinct(t, 11);
    crate::schema::template_section::lemma_lookup_distinct(t, 12);
    crate::schema::template_section::lemma_lookup_distinct(t, 13);
    crate::schema::template_section::lemma_lookup_distinct(t, 14);
    reveal(read_bool_field);
}

} // verus!
