//! Reading and writing the sections with a field that is one of a fixed set
//! of names: wallpaper automation (`order`), a plugin source (`kind`) and a
//! calendar account (`credential_source`). A name is matched after trimming; a name
//! outside the set leaves the order as it was (the diagnostic for it comes
//! from the value checks).

use vstd::prelude::*;
use crate::value::{TomlTable, TomlValue, TomlData, TableData, lookup, keys_distinct, lemma_entries_data};
use crate::schema::fields::{read_bool_field, read_int_field, read_path_field, read_string_field, read_strings_field, strings_array,
    lemma_strings_round_trip, get_bool, get_int, get_path, get_string, get_strings, bool_entry, int_entry, string_entry, strings_entry};
use crate::types::widget_setting_value::string_list_view;
use crate::schema::value_checks::home_view;
use crate::schema::template_section::lemma_lookup_distinct;
use crate::text::{str_equal, trim_whitespace, spec_trim_whitespace};
use crate::types::calendar::{CalendarAccountConfig, CalendarCredentialSource};
use crate::types::plugins::{PluginSourceConfig, PluginSourceKind, spec_valid_plugin_source_name, is_valid_plugin_source_name};
use crate::types::wallpaper::{WallpaperAutomationConfig, WallpaperAutomationOrder};

verus! {

/// The order a name stands for, if any.
pub open spec fn order_of_name(name: Seq<char>) -> Option<WallpaperAutomationOrder> {
    if name == "random"@ {
        Some(WallpaperAutomationOrder::Random)
    } else if name == "alphabetical"@ {
        Some(WallpaperAutomationOrder::Alphabetical)
    } else {
        None
    }
}

/// The name an order is written as.
pub open spec fn name_of_order(o: WallpaperAutomationOrder) -> Seq<char> {
    match o {
        WallpaperAutomationOrder::Random => "random"@,
        WallpaperAutomationOrder::Alphabetical => "alphabetical"@,
    }
}

/// An order field: the order named by the trimmed string under `key`, else `cur`.
pub open spec fn read_order_field(t: TableData, key: Seq<char>, cur: WallpaperAutomationOrder) -> WallpaperAutomationOrder {
    match lookup(t, key) {
        Some(TomlData::String(s)) => match order_of_name(spec_trim_whitespace(s)) {
            Some(o) => o,
            None => cur,
        },
        _ => cur,
    }
}

/// The content of a [`WallpaperAutomationConfig`].
pub struct WallpaperAutomationView {
    pub enabled: bool,
    pub interval_seconds: i32,
    pub order: WallpaperAutomationOrder,
    pub recursive: bool,
}

impl View for WallpaperAutomationConfig {
    type V = WallpaperAutomationView;

    open spec fn view(&self) -> WallpaperAutomationView {
        WallpaperAutomationView {
            enabled: self.enabled,
            interval_seconds: self.interval_seconds,
            order: self.order,
            recursive: self.recursive,
        }
    }
}

/// `cur` with the fields that `t` sets read from it; the interval is clamped
/// into `[1, 86400]` seconds.
pub open spec fn spec_read_wallpaper_automation(cur: WallpaperAutomationView, t: TableData) -> WallpaperAutomationView {
    WallpaperAutomationView {
        enabled: read_bool_field(t, "enabled"@, cur.enabled),
        interval_seconds: read_int_field(t, "interval_seconds"@, Some((1i64, 86400i64)), cur.interval_seconds),
        order: read_order_field(t, "order"@, cur.order),
        recursive: read_bool_field(t, "recursive"@, cur.recursive),
    }
}

/// The table `v` is written as: every field, in schema order.
pub open spec fn spec_write_wallpaper_automation(v: WallpaperAutomationView) -> TableData {
    seq![
        ("enabled"@, TomlData::Boolean(v.enabled)),
        ("interval_seconds"@, TomlData::Integer(v.interval_seconds as i64)),
        ("order"@, TomlData::String(name_of_order(v.order))),
        ("recursive"@, TomlData::Boolean(v.recursive)),
    ]
}

/// The order a name stands for (see [`order_of_name`]).
pub fn parse_order(name: &str) -> (r: Option<WallpaperAutomationOrder>)
    ensures
        r == order_of_name(name@),
{
    if str_equal(name, "random") {
        Some(WallpaperAutomationOrder::Random)
    } else if str_equal(name, "alphabetical") {
        Some(WallpaperAutomationOrder::Alphabetical)
    } else {
        None
    }
}

/// The name an order is written as (see [`name_of_order`]).
pub fn order_name(o: WallpaperAutomationOrder) -> (r: &'static str)
    ensures
        r@ == name_of_order(o),
{
    match o {
        WallpaperAutomationOrder::Random => "random",
        WallpaperAutomationOrder::Alphabetical => "alphabetical",
    }
}

/// Reads the fields that `t` sets into `out`; see [`spec_read_wallpaper_automation`].
pub fn read_wallpaper_automation(t: &TomlTable, out: &mut WallpaperAutomationConfig)
    ensures
        final(out)@ == spec_read_wallpaper_automation(old(out)@, t@),
{
    out.enabled = get_bool(t, "enabled", out.enabled);
    out.interval_seconds = get_int(t, "interval_seconds", Some((1i64, 86400i64)), out.interval_seconds);
    match t.get("order") {
        Some(TomlValue::String(s)) => {
            match parse_order(trim_whitespace(s.as_str())) {
                Some(o) => {
                    out.order = o;
                },
                None => {},
            }
        },
        _ => {},
    }
    out.recursive = get_bool(t, "recursive", out.recursive);
}

/// Writes every field of `v`, in schema order; see [`spec_write_wallpaper_automation`].
pub fn write_wallpaper_automation(v: &WallpaperAutomationConfig) -> (t: TomlTable)
    ensures
        t@ == spec_write_wallpaper_automation(v@),
{
    let name = order_name(v.order).to_owned();
    let t = TomlTable {
        entries: vec![
            bool_entry("enabled", v.enabled),
            int_entry("interval_seconds", v.interval_seconds),
            string_entry("order", &name),
            bool_entry("recursive", v.recursive),
        ],
    };
    proof {
        lemma_entries_data(t.entries@, t.entries@.len() as int);
        assert(t@ =~= spec_write_wallpaper_automation(v@));
    }
    t
}

/// Reading a written wallpaper automation back gives it, for an interval
/// within `[1, 86400]` seconds.
pub proof fn lemma_wallpaper_automation_round_trip(cur: WallpaperAutomationView, v: WallpaperAutomationView)
    requires
        1 <= v.interval_seconds <= 86400,
    ensures
        spec_read_wallpaper_automation(cur, spec_write_wallpaper_automation(v)) == v,
{
    let t = spec_write_wallpaper_automation(v);
    reveal_strlit("enabled");
    reveal_strlit("interval_seconds");
    reveal_strlit("order");
    reveal_strlit("recursive");
    reveal_strlit("random");
    reveal_strlit("alphabetical");
    assert("enabled"@.len() != "interval_seconds"@.len());
    assert("enabled"@.len() != "order"@.len());
    assert("enabled"@.len() != "recursive"@.len());
    assert("interval_seconds"@.len() != "order"@.len());
    assert("interval_seconds"@.len() != "recursive"@.len());
    assert("order"@.len() != "recursive"@.len());
    assert("random"@.len() != "alphabetical"@.len());
    assert(keys_distinct(t));
    lemma_lookup_distinct(t, 0);
    lemma_lookup_distinct(t, 1);
    lemma_lookup_distinct(t, 2);
    lemma_lookup_distinct(t, 3);
    assert(spec_trim_whitespace(name_of_order(v.order)) == name_of_order(v.order)) by {
        crate::text::lemma_trim_untouched(name_of_order(v.order));
    }
    let d = v.interval_seconds;
    assert((d as i64) as i32 == d) by (bit_vector);
    reveal(read_bool_field);
}

// ── plugin source ──────────────────────────────────────────────────────────

/// The kind a name stands for, if any.
pub open spec fn kind_of_name(name: Seq<char>) -> Option<PluginSourceKind> {
    if name == "git"@ {
        Some(PluginSourceKind::Git)
    } else if name == "path"@ {
        Some(PluginSourceKind::Path)
    } else {
        None
    }
}

/// The name a kind is written as.
pub open spec fn name_of_kind(k: PluginSourceKind) -> Seq<char> {
    match k {
        PluginSourceKind::Git => "git"@,
        PluginSourceKind::Path => "path"@,
    }
}

/// The content of a [`PluginSourceConfig`].
pub struct PluginSourceView {
    pub kind: PluginSourceKind,
    pub name: Seq<char>,
    pub location: Seq<char>,
    pub enabled: bool,
}

impl View for PluginSourceConfig {
    type V = PluginSourceView;

    open spec fn view(&self) -> PluginSourceView {
        PluginSourceView { kind: self.kind, name: self.name@, location: self.location@, enabled: self.enabled }
    }
}

/// `cur` with the fields that `t` sets read from it: the name only when it
/// is a valid source name, the kind named by the trimmed string under
/// `kind`, the location with a leading `~` expanded against `home`.
pub open spec fn spec_read_plugin_source(cur: PluginSourceView, t: TableData, home: Option<Seq<char>>) -> PluginSourceView {
    PluginSourceView {
        name: match lookup(t, "name"@) {
            Some(TomlData::String(s)) => if spec_valid_plugin_source_name(s) { s } else { cur.name },
            _ => cur.name,
        },
        kind: match lookup(t, "kind"@) {
            Some(TomlData::String(s)) => match kind_of_name(spec_trim_whitespace(s)) {
                Some(k) => k,
                None => cur.kind,
            },
            _ => cur.kind,
        },
        location: read_path_field(t, "location"@, home, cur.location),
        ..cur
    }
}

/// The table `v` is written as: name, kind and location, in schema order.
pub open spec fn spec_write_plugin_source(v: PluginSourceView) -> TableData {
    seq![
        ("name"@, TomlData::String(v.name)),
        ("kind"@, TomlData::String(name_of_kind(v.kind))),
        ("location"@, TomlData::String(v.location)),
    ]
}

/// The kind a name stands for (see [`kind_of_name`]).
pub fn parse_kind(name: &str) -> (r: Option<PluginSourceKind>)
    ensures
        r == kind_of_name(name@),
{
    if str_equal(name, "git") {
        Some(PluginSourceKind::Git)
    } else if str_equal(name, "path") {
        Some(PluginSourceKind::Path)
    } else {
        None
    }
}

/// The name a kind is written as (see [`name_of_kind`]).
pub fn kind_name(k: PluginSourceKind) -> (r: &'static str)
    ensures
        r@ == name_of_kind(k),
{
    match k {
        PluginSourceKind::Git => "git",
        PluginSourceKind::Path => "path",
    }
}

/// Reads the fields that `t` sets into `out`; see [`spec_read_plugin_source`].
pub fn read_plugin_source(t: &TomlTable, out: &mut PluginSourceConfig, home: Option<&str>)
    ensures
        final(out)@ == spec_read_plugin_source(old(out)@, t@, home_view(home)),
{
    match t.get("name") {
        Some(TomlValue::String(s)) => {
            if is_valid_plugin_source_name(s.as_str()) {
                out.name = s.clone();
            }
        },
        _ => {},
    }
    match t.get("kind") {
        Some(TomlValue::String(s)) => {
            match parse_kind(trim_whitespace(s.as_str())) {
                Some(k) => {
                    out.kind = k;
                },
                None => {},
            }
        },
        _ => {},
    }
    get_path(t, "location", home, &mut out.location);
}

/// Writes `v`; see [`spec_write_plugin_source`].
pub fn write_plugin_source(v: &PluginSourceConfig) -> (t: TomlTable)
    ensures
        t@ == spec_write_plugin_source(v@),
{
    let kind = kind_name(v.kind).to_owned();
    let t = TomlTable {
        entries: vec![string_entry("name", &v.name), string_entry("kind", &kind), string_entry("location", &v.location)],
    };
    proof {
        lemma_entries_data(t.entries@, t.entries@.len() as int);
        assert(t@ =~= spec_write_plugin_source(v@));
    }
    t
}

/// Reading a written plugin source back gives it, for a valid source name
/// (the location read without a home directory).
pub proof fn lemma_plugin_source_round_trip(cur: PluginSourceView, v: PluginSourceView)
    requires
        spec_valid_plugin_source_name(v.name),
    ensures
        spec_read_plugin_source(cur, spec_write_plugin_source(v), None) == (PluginSourceView { enabled: cur.enabled, ..v }),
{
    let t = spec_write_plugin_source(v);
    reveal_strlit("name");
    reveal_strlit("kind");
    reveal_strlit("location");
    reveal_strlit("git");
    reveal_strlit("path");
    assert("name"@[0] != "kind"@[0]);
    assert("name"@.len() != "location"@.len());
    assert("kind"@.len() != "location"@.len());
    assert("git"@.len() != "path"@.len());
    assert(keys_distinct(t));
    lemma_lookup_distinct(t, 0);
    lemma_lookup_distinct(t, 1);
    lemma_lookup_distinct(t, 2);
    assert(spec_trim_whitespace(name_of_kind(v.kind)) == name_of_kind(v.kind)) by {
        crate::text::lemma_trim_untouched(name_of_kind(v.kind));
    }
}

// ── calendar account ───────────────────────────────────────────────────────

/// The credential source a name stands for, if any.
pub open spec fn source_of_name(name: Seq<char>) -> Option<CalendarCredentialSource> {
    if name == "secret_service"@ || name == "secret-service"@ {
        Some(CalendarCredentialSource::SecretService)
    } else if name == "file"@ {
        Some(CalendarCredentialSource::File)
    } else {
        None
    }
}

/// The name a credential source is written as.
pub open spec fn name_of_source(c: CalendarCredentialSource) -> Seq<char> {
    match c {
        CalendarCredentialSource::SecretService => "secret_service"@,
        CalendarCredentialSource::File => "file"@,
    }
}

/// The content of a [`CalendarAccountConfig`].
pub struct CalendarAccountView {
    pub id: Seq<char>,
    pub type_: Seq<char>,
    pub display_name: Seq<char>,
    pub color: Seq<char>,
    pub provider: Seq<char>,
    pub server_url: Seq<char>,
    pub username: Seq<char>,
    pub calendars: Seq<Seq<char>>,
    pub credential_source: CalendarCredentialSource,
    pub password_file: Seq<char>,
}

impl View for CalendarAccountConfig {
    type V = CalendarAccountView;

    open spec fn view(&self) -> CalendarAccountView {
        CalendarAccountView {
            id: self.id@,
            type_: self.type_@,
            display_name: self.display_name@,
            color: self.color@,
            provider: self.provider@,
            server_url: self.server_url@,
            username: self.username@,
            calendars: string_list_view(self.calendars@),
            credential_source: self.credential_source,
            password_file: self.password_file@,
        }
    }
}

/// `cur` with the fields that `t` sets read from it: the credential source
/// named by the trimmed string under `credential_source`, the password file
/// with a leading `~` expanded against `home`.
pub open spec fn spec_read_calendar_account(cur: CalendarAccountView, t: TableData, home: Option<Seq<char>>) -> CalendarAccountView {
    CalendarAccountView {
        type_: read_string_field(t, "type"@, cur.type_),
        display_name: read_string_field(t, "name"@, cur.display_name),
        color: read_string_field(t, "color"@, cur.color),
        provider: read_string_field(t, "provider"@, cur.provider),
        server_url: read_string_field(t, "server_url"@, cur.server_url),
        username: read_string_field(t, "username"@, cur.username),
        calendars: read_strings_field(t, "enabled_calendars"@, cur.calendars),
        credential_source: match lookup(t, "credential_source"@) {
            Some(TomlData::String(s)) => match source_of_name(spec_trim_whitespace(s)) {
                Some(c) => c,
                None => cur.credential_source,
            },
            _ => cur.credential_source,
        },
        password_file: read_path_field(t, "password_file"@, home, cur.password_file),
        ..cur
    }
}

/// The table `v` is written as: every field but the id, in schema order.
pub open spec fn spec_write_calendar_account(v: CalendarAccountView) -> TableData {
    seq![
        ("type"@, TomlData::String(v.type_)),
        ("name"@, TomlData::String(v.display_name)),
        ("color"@, TomlData::String(v.color)),
        ("provider"@, TomlData::String(v.provider)),
        ("server_url"@, TomlData::String(v.server_url)),
        ("username"@, TomlData::String(v.username)),
        ("enabled_calendars"@, strings_array(v.calendars)),
        ("credential_source"@, TomlData::String(name_of_source(v.credential_source))),
        ("password_file"@, TomlData::String(v.password_file)),
    ]
}

/// The credential source a name stands for (see [`source_of_name`]).
pub fn parse_credential_source(name: &str) -> (r: Option<CalendarCredentialSource>)
    ensures
        r == source_of_name(name@),
{
    if str_equal(name, "secret_service") || str_equal(name, "secret-service") {
        Some(CalendarCredentialSource::SecretService)
    } else if str_equal(name, "file") {
        Some(CalendarCredentialSource::File)
    } else {
        None
    }
}

/// The name a credential source is written as (see [`name_of_source`]).
pub fn credential_source_name(c: CalendarCredentialSource) -> (r: &'static str)
    ensures
        r@ == name_of_source(c),
{
    match c {
        CalendarCredentialSource::SecretService => "secret_service",
        CalendarCredentialSource::File => "file",
    }
}

/// Reads the fields that `t` sets into `out`; see [`spec_read_calendar_account`].
pub fn read_calendar_account(t: &TomlTable, out: &mut CalendarAccountConfig, home: Option<&str>)
    ensures
        final(out)@ == spec_read_calendar_account(old(out)@, t@, home_view(home)),
{
    get_string(t, "type", &mut out.type_);
    get_string(t, "name", &mut out.display_name);
    get_string(t, "color", &mut out.color);
    get_string(t, "provider", &mut out.provider);
    get_string(t, "server_url", &mut out.server_url);
    get_string(t, "username", &mut out.username);
    get_strings(t, "enabled_calendars", &mut out.calendars);
    match t.get("credential_source") {
        Some(TomlValue::String(s)) => {
            match parse_credential_source(trim_whitespace(s.as_str())) {
                Some(c) => {
                    out.credential_source = c;
                },
                None => {},
            }
        },
        _ => {},
    }
    get_path(t, "password_file", home, &mut out.password_file);
}

/// Writes `v`; see [`spec_write_calendar_account`].
pub fn write_calendar_account(v: &CalendarAccountConfig) -> (t: TomlTable)
    ensures
        t@ == spec_write_calendar_account(v@),
{
    let source = credential_source_name(v.credential_source).to_owned();
    let t = TomlTable {
        entries: vec![
            string_entry("type", &v.type_),
            string_entry("name", &v.display_name),
            string_entry("color", &v.color),
            string_entry("provider", &v.provider),
            string_entry("server_url", &v.server_url),
            string_entry("username", &v.username),
            strings_entry("enabled_calendars", &v.calendars),
            string_entry("credential_source", &source),
            string_entry("password_file", &v.password_file),
        ],
    };
    proof {
        lemma_entries_data(t.entries@, t.entries@.len() as int);
        assert(t@ =~= spec_write_calendar_account(v@));
    }
    t
}

/// Reading a written calendar account back gives it (the password file read
/// without a home directory); the id, which the table does not hold, keeps
/// what `cur` held.
#[verifier::spinoff_prover]
#[verifier::rlimit(40)]
pub proof fn lemma_calendar_account_round_trip(cur: CalendarAccountView, v: CalendarAccountView)
    ensures
        spec_read_calendar_account(cur, spec_write_calendar_account(v), None) == (CalendarAccountView { id: cur.id, ..v }),
{
    let t = spec_write_calendar_account(v);
    reveal_strlit("type");
    reveal_strlit("name");
    reveal_strlit("color");
    reveal_strlit("provider");
    reveal_strlit("server_url");
    reveal_strlit("username");
    reveal_strlit("enabled_calendars");
    reveal_strlit("credential_source");
    reveal_strlit("password_file");
    reveal_strlit("secret_service");
    reveal_strlit("secret-service");
    reveal_strlit("file");
    assert("type"@[0] != "name"@[0]);
    assert("type"@.len() != "color"@.len());
    assert("name"@.len() != "color"@.len());
    assert("type"@.len() != "provider"@.len());
    assert("name"@.len() != "provider"@.len());
    assert("color"@.len() != "provider"@.len());
    assert("type"@.len() != "server_url"@.len());
    assert("name"@.len() != "server_url"@.len());
    assert("color"@.len() != "server_url"@.len());
    assert("provider"@.len() != "server_url"@.len());
    assert("type"@.len() != "username"@.len());
    assert("name"@.len() != "username"@.len());
    assert("color"@.len() != "username"@.len());
    assert("provider"@[0] != "username"@[0]);
    assert("server_url"@.len() != "username"@.len());
    assert("type"@.len() != "enabled_calendars"@.len());
    assert("name"@.len() != "enabled_calendars"@.len());
    assert("color"@.len() != "enabled_calendars"@.len());
    assert("provider"@.len() != "enabled_calendars"@.len());
    assert("server_url"@.len() != "enabled_calendars"@.len());
    assert("username"@.len() != "enabled_calendars"@.len());
    assert("type"@.len() != "credential_source"@.len());
    assert("name"@.len() != "credential_source"@.len());
    assert("color"@.len() != "credential_source"@.len());
    assert("provider"@.len() != "credential_source"@.len());
    assert("server_url"@.len() != "credential_source"@.len());
    assert("username"@.len() != "credential_source"@.len());
    assert("enabled_calendars"@[0] != "credential_source"@[0]);
    assert("type"@.len() != "password_file"@.len());
    assert("name"@.len() != "password_file"@.len());
    assert("color"@.len() != "password_file"@.len());
    assert("provider"@.len() != "password_file"@.len());
    assert("server_url"@.len() != "password_file"@.len());
    assert("username"@.len() != "password_file"@.len());
    assert("enabled_calendars"@.len() != "password_file"@.len());
    assert("credential_source"@.len() != "password_file"@.len());
    assert("secret_service"@.len() != "file"@.len());
    assert(keys_distinct(t));
    lemma_lookup_distinct(t, 0);
    lemma_lookup_distinct(t, 1);
    lemma_lookup_distinct(t, 2);
    lemma_lookup_distinct(t, 3);
    lemma_lookup_distinct(t, 4);
    lemma_lookup_distinct(t, 5);
    lemma_lookup_distinct(t, 6);
    lemma_lookup_distinct(t, 7);
    lemma_lookup_distinct(t, 8);
    lemma_strings_round_trip(v.calendars);
    assert(spec_trim_whitespace(name_of_source(v.credential_source)) == name_of_source(v.credential_source)) by {
        crate::text::lemma_trim_untouched(name_of_source(v.credential_source));
    }
}

} // verus!
