use noctalia_config::schema::registry::{collect_unknown_keys, is_known_config_path, SchemaId, SEARCH_DEPTH};
use noctalia_config::value::{TomlEntry, TomlTable, TomlValue};

fn path(segs: &[&str]) -> Vec<String> {
    segs.iter().map(|s| (*s).to_string()).collect()
}

fn to_value(v: &toml::Value) -> TomlValue {
    match v {
        toml::Value::String(s) => TomlValue::String(s.clone()),
        toml::Value::Integer(i) => TomlValue::Integer(*i),
        toml::Value::Float(f) => TomlValue::Float(f.to_bits()),
        toml::Value::Boolean(b) => TomlValue::Boolean(*b),
        toml::Value::Datetime(d) => TomlValue::Datetime(d.to_string()),
        toml::Value::Array(a) => TomlValue::Array(a.iter().map(to_value).collect()),
        toml::Value::Table(t) => TomlValue::Table(to_table(t)),
    }
}

fn to_table(t: &toml::Table) -> TomlTable {
    TomlTable {
        entries: t
            .iter()
            .map(|(k, v)| TomlEntry { key: k.clone(), value: to_value(v) })
            .collect(),
    }
}

fn parse(s: &str) -> TomlTable {
    to_table(&s.parse::<toml::Table>().expect("test fixture must be valid TOML"))
}

#[test]
fn config_path_resolution() {
    // Known override paths
    assert!(is_known_config_path(&path(&["accessibility", "ui_scale"])));
    assert!(is_known_config_path(&path(&[
        "shell",
        "animation",
        "speed"
    ])));
    assert!(is_known_config_path(&path(&["shell", "panel_anchor_bar"])));
    assert!(is_known_config_path(&path(&[
        "shell",
        "panel",
        "control_center_placement"
    ])));
    assert!(is_known_config_path(&path(&["shell", "shadow", "alpha"])));
    assert!(is_known_config_path(&path(&[
        "shell",
        "screen_corners",
        "size"
    ])));
    assert!(is_known_config_path(&path(&[
        "shell",
        "screenshot",
        "directory"
    ])));
    assert!(is_known_config_path(&path(&[
        "system",
        "monitor",
        "cpu_poll_seconds"
    ])));
    assert!(is_known_config_path(&path(&["theme", "mode"])));
    assert!(is_known_config_path(&path(&[
        "theme",
        "templates",
        "enable_builtin_templates"
    ])));
    assert!(is_known_config_path(&path(&[
        "wallpaper",
        "automation",
        "interval_seconds"
    ])));
    assert!(is_known_config_path(&path(&["wallpaper", "fill_color"])));
    assert!(is_known_config_path(&path(&["dock", "icon_size"])));
    assert!(is_known_config_path(&path(&["dock", "radius_top_left"])));
    assert!(is_known_config_path(&path(&["desktop_widgets", "enabled"])));
    assert!(is_known_config_path(&path(&[
        "desktop_widgets",
        "grid",
        "cell_size"
    ])));
    assert!(is_known_config_path(&path(&[
        "desktop_widgets",
        "widget_order"
    ])));
    assert!(is_known_config_path(&path(&[
        "desktop_widgets",
        "widget",
        "clock1",
        "type"
    ])));
    assert!(is_known_config_path(&path(&[
        "desktop_widgets",
        "widget",
        "clock1",
        "settings",
        "format"
    ])));
    assert!(is_known_config_path(&path(&["osd", "scale"])));
    assert!(is_known_config_path(&path(&[
        "notification",
        "background_opacity"
    ])));
    assert!(is_known_config_path(&path(&[
        "battery",
        "warning_threshold"
    ])));
    assert!(is_known_config_path(&path(&[
        "calendar",
        "refresh_minutes"
    ])));
    assert!(is_known_config_path(&path(&[
        "calendar", "account", "icloud", "provider"
    ])));
    assert!(is_known_config_path(&path(&[
        "control_center",
        "calendar",
        "show_events_card"
    ])));
    assert!(is_known_config_path(&path(&[
        "nightlight",
        "temperature_day"
    ])));
    assert!(is_known_config_path(&path(&["location", "auto_locate"])));
    assert!(is_known_config_path(&path(&["keybinds", "validate"])));
    assert!(is_known_config_path(&path(&["control_center", "sidebar"])));
    assert!(is_known_config_path(&path(&["hooks", "wallpaper_changed"])));
    assert!(is_known_config_path(&path(&[
        "bar",
        "default",
        "thickness"
    ])));
    assert!(is_known_config_path(&path(&[
        "bar",
        "default",
        "concave_edge_corners"
    ])));
    assert!(is_known_config_path(&path(&["bar", "default", "position"])));
    assert!(is_known_config_path(&path(&["bar", "default"])));
    assert!(is_known_config_path(&path(&[
        "bar",
        "default",
        "monitor",
        "DP-1",
        "thickness"
    ])));
    assert!(is_known_config_path(&path(&[
        "bar",
        "default",
        "monitor",
        "DP-1",
        "concave_edge_corners"
    ])));

    // Unknown / typos
    assert!(!is_known_config_path(&path(&["shell", "ui_scl"])));
    assert!(!is_known_config_path(&path(&[
        "shell",
        "panel",
        "control_center_palcement"
    ])));
    assert!(!is_known_config_path(&path(&["accessibilit", "ui_scale"])));
    assert!(!is_known_config_path(&path(&["shell"])));
    assert!(!is_known_config_path(&path(&["dock", "radius_top_typo"])));
    assert!(!is_known_config_path(&path(&[
        "desktop_widgets",
        "enabeld"
    ])));
    assert!(!is_known_config_path(&path(&[
        "desktop_widgets",
        "grid",
        "cell_szie"
    ])));
    assert!(!is_known_config_path(&path(&[
        "desktop_widgets",
        "widget",
        "clock1",
        "bogus"
    ])));
    assert!(!is_known_config_path(&path(&[
        "bar",
        "default",
        "thicknesss"
    ])));
    assert!(!is_known_config_path(&path(&[
        "bar", "default", "monitor", "DP-1", "bogus"
    ])));
    assert!(!is_known_config_path(&[]));
}

#[test]
fn collect_unknown_keys_finds_extra_keys() {
    let tbl = parse("ui_scale = 1.0\nextra = 42\n");
    let mut unknown = Vec::new();
    collect_unknown_keys(&tbl, SchemaId::Accessibility, "section", SEARCH_DEPTH, &mut unknown);
    assert_eq!(unknown, vec!["section.extra"]);
}

#[test]
fn unknown_keys_are_found_in_named_tables_and_array_items() {
    let tbl = parse(
        "[launcher.providers.emoji]\nprefix = \"em\"\n[launcher.providers.wallpaper]\nprefix = \"wp\"\nbogus_key = 1\n[[session.actions]]\nnope = 1\n",
    );
    let mut unknown = Vec::new();
    collect_unknown_keys(&tbl, SchemaId::Shell, "shell", SEARCH_DEPTH, &mut unknown);
    assert_eq!(
        unknown,
        vec!["shell.launcher.providers.wallpaper.bogus_key", "shell.session.actions.nope"]
    );
}

#[test]
fn plugin_settings_paths_are_known_three_deep() {
    assert!(is_known_config_path(&path(&["plugin_settings", "author/plugin", "threshold"])));
    assert!(!is_known_config_path(&path(&["plugin_settings", "a", "b", "c"])));
    assert!(is_known_config_path(&path(&["lockscreen_widgets", "grid", "cell_size"])));
}
