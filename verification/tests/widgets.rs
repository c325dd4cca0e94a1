use noctalia_config::types::widget::{read_bar_widget_config, read_widget_setting_value, seed_builtin_widgets, WidgetConfig};
use noctalia_config::types::widget_setting_value::WidgetSettingValue;
use noctalia_config::value::{TomlEntry, TomlTable, TomlValue};

fn to_value(v: &toml::Value) -> TomlValue {
    match v {
        toml::Value::String(s) => TomlValue::String(s.clone()),
        toml::Value::Integer(i) => TomlValue::Integer(*i),
        toml::Value::Float(f) => TomlValue::Float(f.to_bits()),
        toml::Value::Boolean(b) => TomlValue::Boolean(*b),
        toml::Value::Datetime(d) => TomlValue::Datetime(d.to_string()),
        toml::Value::Array(a) => TomlValue::Array(a.iter().map(to_value).collect()),
        toml::Value::Table(t) => TomlValue::Table(to_table(t)),
    }
}

fn to_table(t: &toml::Table) -> TomlTable {
    TomlTable {
        entries: t
            .iter()
            .map(|(k, v)| TomlEntry { key: k.clone(), value: to_value(v) })
            .collect(),
    }
}

fn parse_widget_table(toml_str: &str, table_name: &str, widget_name: &str) -> TomlTable {
    let parsed: toml::Table = toml_str.parse().expect("test TOML parses");
    let root = parsed.get(table_name).and_then(toml::Value::as_table).expect("section table");
    to_table(root.get(widget_name).and_then(toml::Value::as_table).expect("widget table"))
}

fn setting<'a>(widget: &'a WidgetConfig, key: &str) -> Option<&'a WidgetSettingValue> {
    widget.settings.iter().find(|(k, _)| k == key).map(|(_, v)| v)
}

fn string_setting<'a>(widget: &'a WidgetConfig, key: &str) -> &'a str {
    match setting(widget, key) {
        Some(WidgetSettingValue::String(s)) => s.as_str(),
        other => panic!("expected string setting '{key}', got {other:?}"),
    }
}

fn bool_setting(widget: &WidgetConfig, key: &str) -> bool {
    match setting(widget, key) {
        Some(WidgetSettingValue::Bool(b)) => *b,
        other => panic!("expected bool setting '{key}', got {other:?}"),
    }
}

fn map_get<'a>(pairs: &'a [(String, String)], key: &str) -> Option<&'a str> {
    pairs.iter().find(|(k, _)| k == key).map(|(_, v)| v.as_str())
}

fn builtins() -> Vec<(String, WidgetConfig)> {
    let mut base = Vec::new();
    seed_builtin_widgets(&mut base);
    base
}

fn widget<'a>(widgets: &'a [(String, WidgetConfig)], name: &str) -> &'a WidgetConfig {
    &widgets.iter().find(|(n, _)| n == name).expect("widget present").1
}

#[test]
fn temp_resolves_against_builtin_and_layers_overrides() {
    let base = builtins();
    let table = parse_widget_table("[widget.temp]\nshow_label = false\n", "widget", "temp");
    let temp = read_bar_widget_config("temp", &table, &base);

    assert_eq!(temp.type_, "sysmon");
    assert_eq!(string_setting(&temp, "stat"), "cpu_temp");
    assert!(!bool_setting(&temp, "show_label"));
}

#[test]
fn unknown_widget_name_resolves_to_its_own_type() {
    let base = Vec::new();
    let table = parse_widget_table("[widget.my_clock]\nformat = \"{:%H:%M}\"\n", "widget", "my_clock");
    let custom = read_bar_widget_config("my_clock", &table, &base);

    assert_eq!(custom.type_, "my_clock");
    assert_eq!(string_setting(&custom, "format"), "{:%H:%M}");
}

#[test]
fn nested_table_setting_becomes_a_string_map_table() {
    let base = builtins();
    let table = parse_widget_table(
        "[widget.keyboard_layout]\n\
         show_label = true\n\
         [widget.keyboard_layout.custom_labels]\n\
         \"English (US)\" = \"EN\"\n",
        "widget",
        "keyboard_layout",
    );
    let layout = read_bar_widget_config("keyboard_layout", &table, &base);

    assert_eq!(layout.type_, "keyboard_layout");
    assert!(!bool_setting(&layout, "hide_when_single_layout"));
    assert!(bool_setting(&layout, "show_label"));
    let labels = layout.tables.iter().find(|(k, _)| k == "custom_labels").map(|(_, m)| m.as_slice());
    assert_eq!(labels.and_then(|m| map_get(m, "English (US)")), Some("EN"));
}

#[test]
fn read_widget_setting_value_parses_a_string_map_table() {
    let parsed: toml::Table =
        "[output_glyphs]\n\"eDP-1\" = \"laptop\"\n\"DP-1\" = \"monitor\"\n".parse().expect("parses");
    let node = to_value(parsed.get("output_glyphs").expect("output_glyphs present"));

    let value = read_widget_setting_value(&node).expect("string-map setting parses");
    let WidgetSettingValue::StringMap(map) = value else {
        panic!("expected a StringMap value");
    };
    assert_eq!(map.len(), 2);
    assert_eq!(map_get(&map, "eDP-1"), Some("laptop"));
    assert_eq!(map_get(&map, "DP-1"), Some("monitor"));
}

#[test]
fn read_widget_setting_value_rejects_a_table_with_a_non_string_value() {
    let parsed: toml::Table = "[output_glyphs]\n\"eDP-1\" = 1\n".parse().expect("parses");
    let node = to_value(parsed.get("output_glyphs").expect("output_glyphs present"));

    assert!(read_widget_setting_value(&node).is_none());
}

#[test]
fn read_widget_setting_value_drops_non_string_array_elements() {
    let parsed: toml::Table = "v = [\"a\", 1, \"b\"]\n".parse().expect("parses");
    let node = to_value(parsed.get("v").expect("v present"));

    let value = read_widget_setting_value(&node).expect("array setting parses");
    assert_eq!(value, WidgetSettingValue::StringList(vec!["a".to_string(), "b".to_string()]));
}

#[test]
fn string_list_accepts_a_single_bare_string() {
    let v = WidgetSettingValue::String("solo".to_string());
    assert_eq!(v.as_string_list(), Some(vec!["solo".to_string()]));
}

#[test]
fn read_widget_setting_value_reads_scalars_as_themselves() {
    assert_eq!(read_widget_setting_value(&TomlValue::Integer(7)), Some(WidgetSettingValue::Int(7)));
    assert_eq!(read_widget_setting_value(&TomlValue::Boolean(true)), Some(WidgetSettingValue::Bool(true)));
    assert_eq!(
        read_widget_setting_value(&TomlValue::Float(2.5f64.to_bits())),
        Some(WidgetSettingValue::Float(2.5f64.to_bits()))
    );
    assert_eq!(read_widget_setting_value(&TomlValue::Datetime("1979-05-27".to_string())), None);
}

#[test]
fn builtin_widgets_hold_their_defaults() {
    let base = builtins();
    assert_eq!(base.len(), 13);
    let active = widget(&base, "active_window");
    assert_eq!(active.type_, "active_window");
    assert_eq!(setting(active, "max_length"), Some(&WidgetSettingValue::Float(260.0f64.to_bits())));
    assert_eq!(setting(active, "icon_size"), Some(&WidgetSettingValue::Float(14.0f64.to_bits())));
    let media = widget(&base, "media");
    assert_eq!(setting(media, "max_length"), Some(&WidgetSettingValue::Float(220.0f64.to_bits())));
    assert_eq!(setting(media, "art_size"), Some(&WidgetSettingValue::Float(16.0f64.to_bits())));
    assert_eq!(setting(media, "min_length"), Some(&WidgetSettingValue::Float(80.0f64.to_bits())));
    let lock_keys = widget(&base, "lock_keys");
    assert!(bool_setting(lock_keys, "show_num_lock"));
    assert_eq!(string_setting(lock_keys, "display"), "short");
    assert_eq!(string_setting(widget(&base, "input_volume"), "device"), "input");
    assert_eq!(string_setting(widget(&base, "date"), "format"), "{:%a %d %b}");
}

#[test]
fn seeding_replaces_a_widget_of_the_same_name() {
    let mut widgets = vec![("spacer".to_string(), WidgetConfig::default())];
    seed_builtin_widgets(&mut widgets);
    assert_eq!(widgets.len(), 13);
    assert_eq!(widgets[0].0, "spacer");
    assert_eq!(widgets[0].1.type_, "spacer");
    assert!(!bool_setting(&widgets[0].1, "interactive"));
}

#[test]
fn typed_entry_keeps_the_builtin_only_when_the_type_matches() {
    let base = builtins();
    let same = parse_widget_table("[widget.cpu]\ntype = \"sysmon\"\n", "widget", "cpu");
    assert_eq!(string_setting(&read_bar_widget_config("cpu", &same, &base), "stat"), "cpu_usage");
    let other = parse_widget_table("[widget.cpu]\ntype = \"clock\"\n", "widget", "cpu");
    let clock = read_bar_widget_config("cpu", &other, &base);
    assert_eq!(clock.type_, "clock");
    assert!(clock.settings.is_empty());
}

#[test]
fn widget_accessors_fall_back_by_type() {
    let mut widget = WidgetConfig::default();
    widget.settings.push(("label".to_string(), WidgetSettingValue::String("hi".to_string())));
    widget.settings.push(("on".to_string(), WidgetSettingValue::Bool(true)));
    widget.tables.push(("labels".to_string(), vec![("k".to_string(), "v".to_string())]));

    assert_eq!(widget.get_string("label", "fallback"), "hi");
    assert_eq!(widget.get_string("missing", "fallback"), "fallback");
    assert_eq!(widget.get_string("on", "fallback"), "fallback");
    assert!(widget.get_bool("on", false));
    assert!(widget.get_bool("label", true));
    assert_eq!(widget.get_string_list("label", &Vec::new()), vec!["hi".to_string()]);
    assert_eq!(map_get(&widget.get_string_map("labels", &Vec::new()), "k"), Some("v"));
    assert!(widget.get_string_map("missing", &Vec::new()).is_empty());
    assert!(widget.has_setting("on"));
    assert!(!widget.has_setting("nope"));
}

#[test]
fn seeding_leaves_user_widgets_alone_and_replaces_builtins_whole() {
    let mut custom = WidgetConfig::default();
    custom.type_ = "clock".to_string();
    let mut user_temp = WidgetConfig::default();
    user_temp.type_ = "custom".to_string();
    user_temp.tables.push(("labels".to_string(), vec![("k".to_string(), "v".to_string())]));
    let mut widgets = vec![("my_clock".to_string(), custom), ("temp".to_string(), user_temp)];
    seed_builtin_widgets(&mut widgets);
    assert_eq!(widget(&widgets, "my_clock").type_, "clock");
    let temp = widget(&widgets, "temp");
    assert_eq!(temp.type_, "sysmon");
    assert_eq!(string_setting(temp, "stat"), "cpu_temp");
    assert!(temp.tables.is_empty());
    assert_eq!(widgets.len(), 14);
}
