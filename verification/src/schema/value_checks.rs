//! The checks a section's readers make of the values they read: names of
//! enumerations, plugin names, storage and credential settings, night-light
//! temperatures. They run as the section is read into its defaults, field by
//! field in schema order, nested tables included.

use vstd::prelude::*;
use crate::value::{TomlTable, TomlValue, TomlData, TableData, lookup, items_data, lemma_items_data};
use crate::schema::diagnostics::{Diagnostics, DiagnosticEntryView, join_path, spec_join_path};
use crate::validate::{warning, value_error};
use crate::schema::registry::{SchemaId, FieldKind, schema_fields, fields_view, field_list};
use crate::schema::config_schema::{spec_expand_user_path, expand_user_path, is_valid_plugin_id};
use crate::schema::ranges::{spec_apply_range, apply_range, Range};
use crate::types::plugins::{spec_valid_plugin_source_name, is_valid_plugin_source_name};
use crate::text::{str_equal, concat, trim_whitespace, spec_trim_whitespace, spec_decimal_int, i64_to_decimal};

verus! {

/// The names an enumeration field of schema `id` accepts, if `key` is one.
pub open spec fn enum_options(id: SchemaId, key: Seq<char>) -> Option<Seq<Seq<char>>> {
    match id {
        SchemaId::Dock => if key == "position"@ {
            Some(seq!["top"@, "bottom"@, "left"@, "right"@])
        } else if key == "launcher_position"@ {
            Some(seq!["none"@, "start"@, "end"@])
        } else {
            None
        },
        SchemaId::BrightnessMonitor => if key == "backend"@ {
            Some(seq!["auto"@, "none"@, "backlight"@, "ddcutil"@])
        } else {
            None
        },
        SchemaId::PluginSource => if key == "kind"@ { Some(seq!["git"@, "path"@]) } else { None },
        SchemaId::CalendarAccount => if key == "credential_source"@ {
            Some(seq!["secret_service"@, "secret-service"@, "file"@])
        } else {
            None
        },
        SchemaId::WallpaperAutomation => if key == "order"@ { Some(seq!["random"@, "alphabetical"@]) } else { None },
        SchemaId::Wallpaper => if key == "fill_mode"@ {
            Some(seq!["center"@, "crop"@, "fit"@, "stretch"@, "repeat"@, "span"@])
        } else {
            None
        },
        SchemaId::Theme => if key == "source"@ {
            Some(seq!["builtin"@, "wallpaper"@, "community"@, "custom"@])
        } else if key == "mode"@ {
            Some(seq!["dark"@, "light"@])
        } else {
            None
        },
        _ => None,
    }
}

/// The warning for a string under `key` whose trimmed text names none of `options`.
pub open spec fn enum_diags(t: TableData, key: Seq<char>, options: Seq<Seq<char>>, parent: Seq<char>) -> Seq<DiagnosticEntryView> {
    match lookup(t, key) {
        Some(TomlData::String(v)) => if options.contains(spec_trim_whitespace(v)) {
            Seq::empty()
        } else {
            seq![warning(spec_join_path(parent, key), "unknown value \""@ + v + "\""@)]
        },
        _ => Seq::empty(),
    }
}

/// The warning for a `layer` under `parent` that is neither `top` nor `overlay`.
pub open spec fn layer_diags(t: TableData, parent: Seq<char>) -> Seq<DiagnosticEntryView> {
    match lookup(t, "layer"@) {
        Some(TomlData::String(v)) => if v == "top"@ || v == "overlay"@ {
            Seq::empty()
        } else {
            seq![warning(spec_join_path(parent, "layer"@), "expected top or overlay, got \""@ + v + "\""@)]
        },
        _ => Seq::empty(),
    }
}

/// The warning for a plugin source `name` that is not a valid source name.
pub open spec fn source_name_diags(t: TableData, parent: Seq<char>) -> Seq<DiagnosticEntryView> {
    match lookup(t, "name"@) {
        Some(TomlData::String(v)) => if spec_valid_plugin_source_name(v) {
            Seq::empty()
        } else {
            seq![warning(spec_join_path(parent, "name"@), "invalid plugin source name \""@ + v + "\""@)]
        },
        _ => Seq::empty(),
    }
}

/// A warning for each of the first `n` items that is a string of whitespace only.
pub open spec fn plugin_id_diags_upto(items: Seq<TomlData>, path: Seq<char>, n: int) -> Seq<DiagnosticEntryView>
    decreases n,
{
    if n <= 0 || n > items.len() {
        Seq::empty()
    } else {
        plugin_id_diags_upto(items, path, n - 1) + match items[n - 1] {
            TomlData::String(s) => if spec_trim_whitespace(s).len() > 0 {
                Seq::empty()
            } else {
                seq![warning(path, "invalid plugin id \""@ + s + "\""@)]
            },
            _ => Seq::empty(),
        }
    }
}

/// The warnings for the invalid ids of the `enabled` plugin list.
pub open spec fn plugin_ids_diags(t: TableData, parent: Seq<char>) -> Seq<DiagnosticEntryView> {
    match lookup(t, "enabled"@) {
        Some(TomlData::Array(items)) => plugin_id_diags_upto(items, spec_join_path(parent, "enabled"@), items.len() as int),
        _ => Seq::empty(),
    }
}

/// The error for a storage `key_source` that is neither `secret-service` nor `file`.
pub open spec fn key_source_diags(t: TableData, parent: Seq<char>) -> Seq<DiagnosticEntryView> {
    match lookup(t, "key_source"@) {
        Some(TomlData::String(v)) => if spec_trim_whitespace(v) == "secret-service"@ || spec_trim_whitespace(v) == "file"@ {
            Seq::empty()
        } else {
            seq![value_error(spec_join_path(parent, "key_source"@), "key_source must be \"secret-service\" or \"file\""@, "config.invalid-value"@)]
        },
        _ => Seq::empty(),
    }
}

/// Whether the string under `key` reads, trimmed, as `file`.
pub open spec fn reads_as_file(t: TableData, key: Seq<char>) -> bool {
    match lookup(t, key) {
        Some(TomlData::String(v)) => spec_trim_whitespace(v) == "file"@,
        _ => false,
    }
}

/// The path a path field reads: its text with a leading `~` expanded
/// against `home`, or empty when absent.
pub open spec fn read_path(t: TableData, key: Seq<char>, home: Option<Seq<char>>) -> Seq<char> {
    match lookup(t, key) {
        Some(TomlData::String(v)) => if v.len() == 0 { v } else { spec_expand_user_path(v, home) },
        _ => Seq::empty(),
    }
}

/// An absolute path: one that starts at the root.
pub open spec fn is_absolute(p: Seq<char>) -> bool {
    p.len() > 0 && p[0] == '/'
}

/// The errors for a file-backed secret: a file source needs an absolute
/// file, and a file needs a file source.
pub open spec fn secret_file_diags(
    path: Seq<char>,
    from_file: bool,
    file: Seq<char>,
    missing: Seq<char>,
    relative: Seq<char>,
    stray: Seq<char>,
) -> Seq<DiagnosticEntryView> {
    if from_file {
        if file.len() == 0 {
            seq![value_error(path, missing, "config.invalid-value"@)]
        } else if !is_absolute(file) {
            seq![value_error(path, relative, "config.invalid-value"@)]
        } else {
            Seq::empty()
        }
    } else if file.len() > 0 {
        seq![value_error(path, stray, "config.invalid-value"@)]
    } else {
        Seq::empty()
    }
}

/// A night-light temperature as read: an integer clamped to `[1000, 25000]`, else `default`.
pub open spec fn read_temperature(t: TableData, key: Seq<char>, default: int) -> int {
    match lookup(t, key) {
        Some(TomlData::Integer(v)) => spec_apply_range(v, Some(1000i64), Some(25000i64)) as int,
        _ => default,
    }
}

/// The warning when the day temperature is not at least 100 K above the
/// night one, with the values as they are adjusted.
pub open spec fn nightlight_diags(t: TableData, parent: Seq<char>) -> Seq<DiagnosticEntryView> {
    let day = read_temperature(t, "temperature_day"@, 6500);
    let night = read_temperature(t, "temperature_night"@, 4000);
    if day - night >= 100 {
        Seq::empty()
    } else {
        let new_night = if day - 100 < 1000 { 1000 } else { day - 100 };
        let new_day = if day - 100 < 1000 { 1100 } else { day };
        seq![warning(
            parent,
            "temperatures must satisfy day > night (day="@ + spec_decimal_int(day) + "K night="@
                + spec_decimal_int(night) + "K); adjusted to day="@ + spec_decimal_int(new_day)
                + "K night="@ + spec_decimal_int(new_night) + "K"@,
        )]
    }
}

/// The checks that run once a table of schema `id` has been read.
pub open spec fn finish_diags(t: TableData, id: SchemaId, parent: Seq<char>, home: Option<Seq<char>>) -> Seq<DiagnosticEntryView> {
    match id {
        SchemaId::Nightlight => nightlight_diags(t, parent),
        SchemaId::CalendarAccount => secret_file_diags(
            spec_join_path(parent, "password_file"@),
            reads_as_file(t, "credential_source"@),
            read_path(t, "password_file"@, home),
            "calendar account with credential_source = \"file\" requires password_file"@,
            "password_file must resolve to an absolute path"@,
            "password_file requires credential_source = \"file\""@,
        ),
        SchemaId::Storage => secret_file_diags(
            spec_join_path(parent, "key_file"@),
            reads_as_file(t, "key_source"@),
            read_path(t, "key_file"@, home),
            "storage with key_source = \"file\" requires key_file"@,
            "key_file must resolve to an absolute path"@,
            "key_file requires key_source = \"file\""@,
        ),
        _ => Seq::empty(),
    }
}

/// The checks the reader of field `key` of schema `id` makes.
pub open spec fn field_diags(t: TableData, id: SchemaId, key: Seq<char>, parent: Seq<char>, home: Option<Seq<char>>) -> Seq<DiagnosticEntryView> {
    match enum_options(id, key) {
        Some(options) => enum_diags(t, key, options, parent),
        None => if id == SchemaId::Dock && key == "layer"@ {
            layer_diags(t, parent)
        } else if id == SchemaId::PluginSource && key == "name"@ {
            source_name_diags(t, parent)
        } else if id == SchemaId::Plugins && key == "enabled"@ {
            plugin_ids_diags(t, parent)
        } else if id == SchemaId::Storage && key == "key_source"@ {
            key_source_diags(t, parent)
        } else if key == ""@ {
            finish_diags(t, id, parent, home)
        } else {
            Seq::empty()
        },
    }
}


/// The checks of reading `t` with schema `id` under `parent`: field by field
/// in schema order, nested tables read in place (named tables in map order,
/// array items in array order), `fuel` levels down.
pub open spec fn value_diags(t: TableData, id: SchemaId, parent: Seq<char>, home: Option<Seq<char>>, fuel: nat) -> Seq<DiagnosticEntryView>
    decreases fuel, 2int, 0int,
{
    if fuel == 0 {
        Seq::empty()
    } else {
        let fs = schema_fields(id);
        fields_value_diags(t, id, fs, parent, home, fuel, fs.len() as int)
    }
}

/// The checks of the first `n` fields of `fs`.
pub open spec fn fields_value_diags(
    t: TableData,
    id: SchemaId,
    fs: Seq<(Seq<char>, FieldKind)>,
    parent: Seq<char>,
    home: Option<Seq<char>>,
    fuel: nat,
    n: int,
) -> Seq<DiagnosticEntryView>
    decreases fuel, 1int, n,
{
    if fuel == 0 || n <= 0 || n > fs.len() {
        Seq::empty()
    } else {
        let key = fs[n - 1].0;
        let below = spec_join_path(parent, key);
        fields_value_diags(t, id, fs, parent, home, fuel, n - 1) + match fs[n - 1].1 {
            FieldKind::Leaf => field_diags(t, id, key, parent, home),
            FieldKind::Sub(c) => match lookup(t, key) {
                Some(TomlData::Table(sub)) => value_diags(sub, c, below, home, (fuel - 1) as nat),
                _ => Seq::empty(),
            },
            FieldKind::Named(c) => match lookup(t, key) {
                Some(TomlData::Table(map)) => named_value_diags(map, c, below, home, fuel, map.len() as int),
                _ => Seq::empty(),
            },
            FieldKind::Array(c) => match lookup(t, key) {
                Some(TomlData::Array(items)) => items_value_diags(items, c, below, home, fuel, items.len() as int),
                _ => Seq::empty(),
            },
        }
    }
}

/// The checks of the tables among the first `n` entries of a map of named tables.
pub open spec fn named_value_diags(map: TableData, c: SchemaId, parent: Seq<char>, home: Option<Seq<char>>, fuel: nat, n: int) -> Seq<DiagnosticEntryView>
    decreases fuel, 0int, n,
{
    if fuel == 0 || n <= 0 || n > map.len() {
        Seq::empty()
    } else {
        named_value_diags(map, c, parent, home, fuel, n - 1) + match map[n - 1].1 {
            TomlData::Table(sub) => value_diags(sub, c, spec_join_path(parent, map[n - 1].0), home, (fuel - 1) as nat),
            _ => Seq::empty(),
        }
    }
}

/// The checks of the tables among the first `n` items of an array.
pub open spec fn items_value_diags(items: Seq<TomlData>, c: SchemaId, parent: Seq<char>, home: Option<Seq<char>>, fuel: nat, n: int) -> Seq<DiagnosticEntryView>
    decreases fuel, 0int, n,
{
    if fuel == 0 || n <= 0 || n > items.len() {
        Seq::empty()
    } else {
        items_value_diags(items, c, parent, home, fuel, n - 1) + match items[n - 1] {
            TomlData::Table(sub) => value_diags(sub, c, parent, home, (fuel - 1) as nat),
            _ => Seq::empty(),
        }
    }
}

/// The text of an optional home directory.
pub open spec fn home_view(home: Option<&str>) -> Option<Seq<char>> {
    match home {
        Some(h) => Some(h@),
        None => None,
    }
}

fn quoted(head: &str, v: &str) -> (r: String)
    ensures
        r@ == head@ + v@ + "\""@,
{
    let a = concat(head, v);
    concat(a.as_str(), "\"")
}

fn in_options(options: &Vec<&'static str>, s: &str) -> (r: bool)
    ensures
        r == options@.map_values(|o: &str| o@).contains(s@),
{
    let ghost ov = options@.map_values(|o: &str| o@);
    let mut i: usize = 0;
    while i < options.len()
        invariant
            ov == options@.map_values(|o: &str| o@),
            0 <= i <= options.len(),
            forall|k: int| 0 <= k < i ==> ov[k] != s@,
        decreases options.len() - i,
    {
        if str_equal(options[i], s) {
            assert(ov[i as int] == s@);
            return true;
        }
        i += 1;
    }
    false
}

fn option_list(id: SchemaId, key: &str) -> (r: Option<Vec<&'static str>>)
    ensures
        match enum_options(id, key@) {
            Some(o) => r is Some && r.unwrap()@.map_values(|s: &str| s@) == o,
            None => r is None,
        },
{
    let r: Option<Vec<&'static str>> = match id {
        SchemaId::Dock => if str_equal(key, "position") {
            Some(vec!["top", "bottom", "left", "right"])
        } else if str_equal(key, "launcher_position") {
            Some(vec!["none", "start", "end"])
        } else {
            None
        },
        SchemaId::BrightnessMonitor => if str_equal(key, "backend") {
            Some(vec!["auto", "none", "backlight", "ddcutil"])
        } else {
            None
        },
        SchemaId::PluginSource => if str_equal(key, "kind") { Some(vec!["git", "path"]) } else { None },
        SchemaId::CalendarAccount => if str_equal(key, "credential_source") {
            Some(vec!["secret_service", "secret-service", "file"])
        } else {
            None
        },
        SchemaId::WallpaperAutomation => if str_equal(key, "order") { Some(vec!["random", "alphabetical"]) } else { None },
        SchemaId::Wallpaper => if str_equal(key, "fill_mode") {
            Some(vec!["center", "crop", "fit", "stretch", "repeat", "span"])
        } else {
            None
        },
        SchemaId::Theme => if str_equal(key, "source") {
            Some(vec!["builtin", "wallpaper", "community", "custom"])
        } else if str_equal(key, "mode") {
            Some(vec!["dark", "light"])
        } else {
            None
        },
        _ => None,
    };
    proof {
        if r is Some {
            assert(r.unwrap()@.map_values(|s: &str| s@) =~= enum_options(id, key@).unwrap());
        }
    }
    r
}

fn check_enum(t: &TomlTable, key: &str, options: &Vec<&'static str>, parent: &str, diag: &mut Diagnostics)
    ensures
        final(diag)@ == old(diag)@ + enum_diags(t@, key@, options@.map_values(|o: &str| o@), parent@),
{
    match t.get(key) {
        Some(TomlValue::String(v)) => {
            if in_options(options, trim_whitespace(v.as_str())) {
                assert(old(diag)@ + Seq::<DiagnosticEntryView>::empty() =~= old(diag)@);
            } else {
                let path = join_path(parent, key);
                let message = quoted("unknown value \"", v.as_str());
                diag.warn(path.as_str(), message.as_str());
            }
        },
        _ => {
            assert(old(diag)@ + Seq::<DiagnosticEntryView>::empty() =~= old(diag)@);
        },
    }
}

/// Warns about a `layer` under `parent` that is neither `top` nor `overlay`.
pub fn check_layer(t: &TomlTable, parent: &str, diag: &mut Diagnostics)
    ensures
        final(diag)@ == old(diag)@ + layer_diags(t@, parent@),
{
    match t.get("layer") {
        Some(TomlValue::String(v)) => {
            if str_equal(v.as_str(), "top") || str_equal(v.as_str(), "overlay") {
                assert(old(diag)@ + Seq::<DiagnosticEntryView>::empty() =~= old(diag)@);
            } else {
                let path = join_path(parent, "layer");
                let message = quoted("expected top or overlay, got \"", v.as_str());
                diag.warn(path.as_str(), message.as_str());
            }
        },
        _ => {
            assert(old(diag)@ + Seq::<DiagnosticEntryView>::empty() =~= old(diag)@);
        },
    }
}

fn check_source_name(t: &TomlTable, parent: &str, diag: &mut Diagnostics)
    ensures
        final(diag)@ == old(diag)@ + source_name_diags(t@, parent@),
{
    match t.get("name") {
        Some(TomlValue::String(v)) => {
            if is_valid_plugin_source_name(v.as_str()) {
                assert(old(diag)@ + Seq::<DiagnosticEntryView>::empty() =~= old(diag)@);
            } else {
                let path = join_path(parent, "name");
                let message = quoted("invalid plugin source name \"", v.as_str());
                diag.warn(path.as_str(), message.as_str());
            }
        },
        _ => {
            assert(old(diag)@ + Seq::<DiagnosticEntryView>::empty() =~= old(diag)@);
        },
    }
}

fn check_plugin_ids(t: &TomlTable, parent: &str, diag: &mut Diagnostics)
    ensures
        final(diag)@ == old(diag)@ + plugin_ids_diags(t@, parent@),
{
    let items = match t.get("enabled") {
        Some(TomlValue::Array(items)) => items,
        _ => {
            assert(old(diag)@ + Seq::<DiagnosticEntryView>::empty() =~= old(diag)@);
            return;
        },
    };
    proof { lemma_items_data(items@, items@.len() as int); }
    let ghost iv = items_data(items@, items@.len() as int);
    let path = join_path(parent, "enabled");
    let ghost d0 = diag@;
    let mut i: usize = 0;
    while i < items.len()
        invariant
            iv == items_data(items@, items@.len() as int),
            iv.len() == items@.len(),
            forall|j: int| 0 <= j < iv.len() ==> #[trigger] iv[j] == items@[j]@,
            path@ == spec_join_path(parent@, "enabled"@),
            0 <= i <= items.len(),
            diag@ == d0 + plugin_id_diags_upto(iv, path@, i as int),
        decreases items.len() - i,
    {
        assert(iv[i as int] == items@[i as int]@);
        match &items[i] {
            TomlValue::String(s) => {
                if !is_valid_plugin_id(s.as_str()) {
                    let message = quoted("invalid plugin id \"", s.as_str());
                    diag.warn(path.as_str(), message.as_str());
                }
            },
            _ => {},
        }
        assert(diag@ =~= d0 + plugin_id_diags_upto(iv, path@, i as int + 1));
        i += 1;
    }
}

fn check_key_source(t: &TomlTable, parent: &str, diag: &mut Diagnostics)
    ensures
        final(diag)@ == old(diag)@ + key_source_diags(t@, parent@),
{
    match t.get("key_source") {
        Some(TomlValue::String(v)) => {
            let s = trim_whitespace(v.as_str());
            if str_equal(s, "secret-service") || str_equal(s, "file") {
                assert(old(diag)@ + Seq::<DiagnosticEntryView>::empty() =~= old(diag)@);
            } else {
                let path = join_path(parent, "key_source");
                diag.error(path.as_str(), "key_source must be \"secret-service\" or \"file\"");
            }
        },
        _ => {
            assert(old(diag)@ + Seq::<DiagnosticEntryView>::empty() =~= old(diag)@);
        },
    }
}

fn read_as_file(t: &TomlTable, key: &str) -> (r: bool)
    ensures
        r == reads_as_file(t@, key@),
{
    match t.get(key) {
        Some(TomlValue::String(v)) => str_equal(trim_whitespace(v.as_str()), "file"),
        _ => false,
    }
}

fn read_path_value(t: &TomlTable, key: &str, home: Option<&str>) -> (r: String)
    ensures
        r@ == read_path(t@, key@, home_view(home)),
{
    match t.get(key) {
        Some(TomlValue::String(v)) => {
            if v.as_str().is_empty() {
                v.clone()
            } else {
                expand_user_path(v.as_str(), home)
            }
        },
        _ => String::new(),
    }
}

fn starts_at_root(p: &str) -> (r: bool)
    ensures
        r == is_absolute(p@),
{
    let cs = crate::text::chars_of(p);
    cs.len() > 0 && cs[0] == '/'
}

fn check_secret_file(
    path: &str,
    from_file: bool,
    file: &str,
    missing: &str,
    relative: &str,
    stray: &str,
    diag: &mut Diagnostics,
)
    ensures
        final(diag)@ == old(diag)@ + secret_file_diags(path@, from_file, file@, missing@, relative@, stray@),
{
    if from_file {
        if file.is_empty() {
            diag.error(path, missing);
        } else if !starts_at_root(file) {
            diag.error(path, relative);
        } else {
            assert(old(diag)@ + Seq::<DiagnosticEntryView>::empty() =~= old(diag)@);
        }
    } else if !file.is_empty() {
        diag.error(path, stray);
    } else {
        assert(old(diag)@ + Seq::<DiagnosticEntryView>::empty() =~= old(diag)@);
    }
}

fn temperature(t: &TomlTable, key: &str, default: i64) -> (r: i64)
    ensures
        r == read_temperature(t@, key@, default as int),
{
    match t.get(key) {
        Some(TomlValue::Integer(v)) => {
            let range: Range<i64> = Range::new(Some(1000i64), Some(25000i64), None);
            apply_range(*v, &range)
        },
        _ => default,
    }
}

fn check_nightlight(t: &TomlTable, parent: &str, diag: &mut Diagnostics)
    ensures
        final(diag)@ == old(diag)@ + nightlight_diags(t@, parent@),
{
    let day = temperature(t, "temperature_day", 6500);
    let night = temperature(t, "temperature_night", 4000);
    if day - night >= 100 {
        assert(old(diag)@ + Seq::<DiagnosticEntryView>::empty() =~= old(diag)@);
        return;
    }
    let (new_day, new_night) = if day - 100 < 1000 { (1100i64, 1000i64) } else { (day, day - 100) };
    let m1 = concat("temperatures must satisfy day > night (day=", i64_to_decimal(day).as_str());
    let m2 = concat(m1.as_str(), "K night=");
    let m3 = concat(m2.as_str(), i64_to_decimal(night).as_str());
    let m4 = concat(m3.as_str(), "K); adjusted to day=");
    let m5 = concat(m4.as_str(), i64_to_decimal(new_day).as_str());
    let m6 = concat(m5.as_str(), "K night=");
    let m7 = concat(m6.as_str(), i64_to_decimal(new_night).as_str());
    let message = concat(m7.as_str(), "K");
    diag.warn(parent, message.as_str());
}

fn check_finish(t: &TomlTable, id: SchemaId, parent: &str, home: Option<&str>, diag: &mut Diagnostics)
    ensures
        final(diag)@ == old(diag)@ + finish_diags(t@, id, parent@, home_view(home)),
{
    match id {
        SchemaId::Nightlight => check_nightlight(t, parent, diag),
        SchemaId::CalendarAccount => {
            let path = join_path(parent, "password_file");
            let file = read_path_value(t, "password_file", home);
            check_secret_file(
                path.as_str(),
                read_as_file(t, "credential_source"),
                file.as_str(),
                "calendar account with credential_source = \"file\" requires password_file",
                "password_file must resolve to an absolute path",
                "password_file requires credential_source = \"file\"",
                diag,
            );
        },
        SchemaId::Storage => {
            let path = join_path(parent, "key_file");
            let file = read_path_value(t, "key_file", home);
            check_secret_file(
                path.as_str(),
                read_as_file(t, "key_source"),
                file.as_str(),
                "storage with key_source = \"file\" requires key_file",
                "key_file must resolve to an absolute path",
                "key_file requires key_source = \"file\"",
                diag,
            );
        },
        _ => {
            assert(old(diag)@ + Seq::<DiagnosticEntryView>::empty() =~= old(diag)@);
        },
    }
}

fn check_field(t: &TomlTable, id: SchemaId, key: &str, parent: &str, home: Option<&str>, diag: &mut Diagnostics)
    ensures
        final(diag)@ == old(diag)@ + field_diags(t@, id, key@, parent@, home_view(home)),
{
    match option_list(id, key) {
        Some(options) => check_enum(t, key, &options, parent, diag),
        None => {
            if id == SchemaId::Dock && str_equal(key, "layer") {
                check_layer(t, parent, diag);
            } else if id == SchemaId::PluginSource && str_equal(key, "name") {
                check_source_name(t, parent, diag);
            } else if id == SchemaId::Plugins && str_equal(key, "enabled") {
                check_plugin_ids(t, parent, diag);
            } else if id == SchemaId::Storage && str_equal(key, "key_source") {
                check_key_source(t, parent, diag);
            } else if str_equal(key, "") {
                check_finish(t, id, parent, home, diag);
            } else {
                assert(old(diag)@ + Seq::<DiagnosticEntryView>::empty() =~= old(diag)@);
            }
        },
    }
}

/// Runs the checks of reading `t` with schema `id` under `parent` (see [`value_diags`]).
pub fn check_values(t: &TomlTable, id: SchemaId, parent: &str, home: Option<&str>, fuel: u8, diag: &mut Diagnostics)
    ensures
        final(diag)@ == old(diag)@ + value_diags(t@, id, parent@, home_view(home), fuel as nat),
    decreases fuel, 2int, 0int,
{
    if fuel == 0 {
        assert(old(diag)@ + Seq::<DiagnosticEntryView>::empty() =~= old(diag)@);
        return;
    }
    let fs = field_list(id);
    check_fields(t, id, &fs, parent, home, fuel, diag);
}

fn check_fields(t: &TomlTable, id: SchemaId, fs: &Vec<(&'static str, FieldKind)>, parent: &str, home: Option<&str>, fuel: u8, diag: &mut Diagnostics)
    requires
        fuel > 0,
    ensures
        final(diag)@ == old(diag)@ + fields_value_diags(t@, id, fields_view(fs@), parent@, home_view(home), fuel as nat, fs@.len() as int),
    decreases fuel, 1int, fs@.len(),
{
    let ghost d0 = diag@;
    let ghost fv = fields_view(fs@);
    let mut i: usize = 0;
    while i < fs.len()
        invariant
            fv == fields_view(fs@),
            fv.len() == fs@.len(),
            fuel > 0,
            0 <= i <= fs.len(),
            diag@ == d0 + fields_value_diags(t@, id, fv, parent@, home_view(home), fuel as nat, i as int),
        decreases fs.len() - i,
    {
        let key = fs[i].0;
        let kind = fs[i].1;
        let ghost before = diag@;
        assert(fv[i as int] == (key@, kind));
        match kind {
            FieldKind::Leaf => check_field(t, id, key, parent, home, diag),
            FieldKind::Sub(c) => {
                match t.get(key) {
                    Some(TomlValue::Table(sub)) => {
                        let below = join_path(parent, key);
                        check_values(sub, c, below.as_str(), home, fuel - 1, diag);
                    },
                    _ => {},
                }
            },
            FieldKind::Named(c) => {
                match t.get(key) {
                    Some(TomlValue::Table(map)) => {
                        let below = join_path(parent, key);
                        check_named(map, c, below.as_str(), home, fuel, diag);
                    },
                    _ => {},
                }
            },
            FieldKind::Array(c) => {
                match t.get(key) {
                    Some(TomlValue::Array(items)) => {
                        proof { lemma_items_data(items@, items@.len() as int); }
                        let below = join_path(parent, key);
                        check_items(items, c, below.as_str(), home, fuel, diag);
                    },
                    _ => {},
                }
            },
        }
        assert(diag@ =~= d0 + fields_value_diags(t@, id, fv, parent@, home_view(home), fuel as nat, i as int + 1));
        i += 1;
    }
}

fn check_named(map: &TomlTable, c: SchemaId, parent: &str, home: Option<&str>, fuel: u8, diag: &mut Diagnostics)
    requires
        fuel > 0,
    ensures
        final(diag)@ == old(diag)@ + named_value_diags(map@, c, parent@, home_view(home), fuel as nat, map@.len() as int),
    decreases fuel, 0int, map@.len(),
{
    let ghost d0 = diag@;
    let n = map.len();
    let mut i: usize = 0;
    while i < n
        invariant
            n == map@.len(),
            fuel > 0,
            0 <= i <= n,
            diag@ == d0 + named_value_diags(map@, c, parent@, home_view(home), fuel as nat, i as int),
        decreases n - i,
    {
        let name = map.key_at(i);
        match map.value_at(i).as_table() {
            Some(sub) => {
                let below = join_path(parent, name);
                check_values(sub, c, below.as_str(), home, fuel - 1, diag);
            },
            None => {},
        }
        assert(diag@ =~= d0 + named_value_diags(map@, c, parent@, home_view(home), fuel as nat, i as int + 1));
        i += 1;
    }
}

fn check_items(items: &Vec<TomlValue>, c: SchemaId, parent: &str, home: Option<&str>, fuel: u8, diag: &mut Diagnostics)
    requires
        fuel > 0,
    ensures
        final(diag)@ == old(diag)@
            + items_value_diags(items_data(items@, items@.len() as int), c, parent@, home_view(home), fuel as nat, items@.len() as int),
    decreases fuel, 0int, items@.len(),
{
    proof { lemma_items_data(items@, items@.len() as int); }
    let ghost iv = items_data(items@, items@.len() as int);
    let ghost d0 = diag@;
    let mut i: usize = 0;
    while i < items.len()
        invariant
            iv == items_data(items@, items@.len() as int),
            iv.len() == items@.len(),
            forall|j: int| 0 <= j < iv.len() ==> #[trigger] iv[j] == items@[j]@,
            fuel > 0,
            0 <= i <= items.len(),
            diag@ == d0 + items_value_diags(iv, c, parent@, home_view(home), fuel as nat, i as int),
        decreases items.len() - i,
    {
        assert(iv[i as int] == items@[i as int]@);
        match items[i].as_table() {
            Some(sub) => {
                check_values(sub, c, parent, home, fuel - 1, diag);
            },
            None => {},
        }
        assert(diag@ =~= d0 + items_value_diags(iv, c, parent@, home_view(home), fuel as nat, i as int + 1));
        i += 1;
    }
}

} // verus!
