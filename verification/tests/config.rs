use noctalia_config::schema::config_schema::{
    expand_user_path,
    append_unique_custom_colors, is_known_desktop_widget_path, is_valid_plugin_id,
    normalize_filter_allowed_urgency_strings, normalize_notification_filter_names,
    normalize_notification_match_token, parse_custom_colors_map, parse_wallpaper_transition,
    wallpaper_transition_key,
};
use noctalia_config::schema::config_sections::{custom_root_keys, is_known_root_key, is_section_name, section_names};
use noctalia_config::schema::diagnostics::{DiagnosticEntry, Diagnostics, RecoveryScope, Severity};
use noctalia_config::state_store::{valid_state_identifier, StateLoad, StateStore, StateUpdate};
use noctalia_config::service::refresh_overrides;
use noctalia_config::validate::{validate_bars, validate_merged_config};
use noctalia_config::schema::section_readers::read_hooks_config;
use noctalia_config::types::hooks::{HookKind, HooksConfig};
use noctalia_config::types::notification::NotificationFilterConfig;
use noctalia_config::types::theme::TemplateColorConfig;
use noctalia_config::types::wallpaper::WallpaperTransition;
use noctalia_config::validate::{
    normalized_clock, validate_calendar_syntax, validate_include_shape, validate_location, warn_unknown_sections,
};
use noctalia_config::value::{TomlEntry, TomlTable, TomlValue};

fn to_value(v: &toml::Value) -> TomlValue {
    match v {
        toml::Value::String(s) => TomlValue::String(s.clone()),
        toml::Value::Integer(i) => TomlValue::Integer(*i),
        toml::Value::Float(f) => TomlValue::Float(f.to_bits()),
        toml::Value::Boolean(b) => TomlValue::Boolean(*b),
        toml::Value::Datetime(d) => TomlValue::Datetime(d.to_string()),
        toml::Value::Array(a) => TomlValue::Array(a.iter().map(to_value).collect()),
        toml::Value::Table(t) => TomlValue::Table(to_table(t)),
    }
}

fn to_table(t: &toml::Table) -> TomlTable {
    TomlTable {
        entries: t
            .iter()
            .map(|(k, v)| TomlEntry { key: k.clone(), value: to_value(v) })
            .collect(),
    }
}

fn parse(s: &str) -> TomlTable {
    to_table(&s.parse::<toml::Table>().expect("test fixture must be valid TOML"))
}

fn at<'a>(t: &'a TomlTable, path: &[&str]) -> Option<&'a TomlValue> {
    let (first, rest) = path.split_first()?;
    let v = t.get(first)?;
    if rest.is_empty() {
        Some(v)
    } else {
        at(v.as_table()?, rest)
    }
}

fn int_at(t: &TomlTable, path: &[&str]) -> Option<i64> {
    at(t, path).and_then(|v| v.as_integer())
}

fn bool_at(t: &TomlTable, path: &[&str]) -> Option<bool> {
    at(t, path).and_then(|v| v.as_bool())
}

fn str_at<'a>(t: &'a TomlTable, path: &[&str]) -> Option<&'a str> {
    at(t, path).and_then(|v| v.as_str())
}

fn find<'a>(diag: &'a Diagnostics, path: &str) -> Option<&'a DiagnosticEntry> {
    diag.entries.iter().find(|e| e.path == path)
}

#[test]
fn normalized_clock_accepts_valid_and_rejects_invalid() {
    assert_eq!(normalized_clock("06:30"), Some("06:30"));
    assert_eq!(normalized_clock("23:59"), Some("23:59"));
    assert_eq!(normalized_clock("24:00"), None);
    assert_eq!(normalized_clock("06:60"), None);
    assert_eq!(normalized_clock("6:30"), None);
    assert_eq!(normalized_clock("06-30"), None);
    assert_eq!(normalized_clock(""), None);
}

#[test]
fn unknown_top_level_key_warns() {
    let tbl = parse("[not_a_real_section]\nfoo = 1\n");
    let diag = validate_merged_config(&tbl, None);
    let entry = find(&diag, "not_a_real_section").expect("unknown section should be reported");
    assert_eq!(entry.message, "unknown section");
}

#[test]
fn known_custom_root_keys_are_not_flagged_unknown() {
    let tbl = parse("[widget.temp]\ntype = \"temp\"\n[bar.main]\nenabled = true\n");
    let diag = validate_merged_config(&tbl, None);
    assert!(find(&diag, "widget").is_none());
    assert!(find(&diag, "bar").is_none());
}

#[test]
fn include_shape_valid_produces_no_diagnostics() {
    let tbl = parse("[include]\nautoload = true\nfiles = [\"a.toml\", \"b.toml\"]\n");
    let mut diag = Diagnostics::default();
    validate_include_shape(&tbl, &mut diag);
    assert!(diag.entries.is_empty());
}

#[test]
fn include_autoload_wrong_type_is_fatal() {
    let tbl = parse("[include]\nautoload = \"yes\"\n");
    let mut diag = Diagnostics::default();
    validate_include_shape(&tbl, &mut diag);
    let entry = find(&diag, "include.autoload").expect("wrong type should be fatal");
    assert_eq!(entry.recovery_scope, RecoveryScope::Document);
}

#[test]
fn include_files_non_string_entry_is_fatal() {
    let tbl = parse("[include]\nfiles = [\"a.toml\", 5]\n");
    let mut diag = Diagnostics::default();
    validate_include_shape(&tbl, &mut diag);
    let entry = find(&diag, "include.files").expect("non-string entry should be fatal");
    assert_eq!(entry.recovery_scope, RecoveryScope::Document);
}

#[test]
fn include_unknown_key_warns() {
    let tbl = parse("[include]\nbogus = true\n");
    let mut diag = Diagnostics::default();
    validate_include_shape(&tbl, &mut diag);
    let entry = find(&diag, "include.bogus").expect("unknown include key should warn");
    assert_eq!(entry.severity, Severity::Warning);
}

#[test]
fn include_that_is_not_a_table_is_fatal() {
    let tbl = parse("include = 3\n");
    let mut diag = Diagnostics::default();
    validate_include_shape(&tbl, &mut diag);
    assert_eq!(diag.entries.len(), 1);
    assert_eq!(diag.entries[0].path, "include");
    assert_eq!(diag.entries[0].message, "[include] must be a table");
    assert_eq!(diag.entries[0].code, "config.include.type");
}

#[test]
fn calendar_old_array_syntax_errors() {
    let tbl = parse("[calendar]\naccounts = [1, 2]\n");
    let mut diag = Diagnostics::default();
    validate_calendar_syntax(&tbl, &mut diag);
    let entry = find(&diag, "calendar.accounts").expect("old array syntax should error");
    assert_eq!(entry.severity, Severity::Error);
}

#[test]
fn calendar_account_url_key_errors() {
    let tbl = parse("[calendar.account.work]\nurl = \"https://example.com/cal\"\n");
    let mut diag = Diagnostics::default();
    validate_calendar_syntax(&tbl, &mut diag);
    let entry = find(&diag, "calendar.account.work.url").expect("removed url syntax should error");
    assert_eq!(entry.severity, Severity::Error);
}

#[test]
fn calendar_account_without_url_is_clean() {
    let tbl = parse("[calendar.account.work]\nprovider = \"caldav\"\n");
    let mut diag = Diagnostics::default();
    validate_calendar_syntax(&tbl, &mut diag);
    assert!(diag.entries.is_empty());
}

#[test]
fn location_valid_clock_times_are_clean() {
    let tbl = parse("[location]\ncustom_schedule = true\nsunset = \"20:15\"\nsunrise = \"06:30\"\n");
    let mut diag = Diagnostics::default();
    validate_location(&tbl, &mut diag);
    assert!(diag.entries.is_empty());
}

#[test]
fn location_invalid_clock_with_custom_schedule_errors() {
    let tbl = parse("[location]\ncustom_schedule = true\nsunset = \"25:99\"\nsunrise = \"06:30\"\n");
    let mut diag = Diagnostics::default();
    validate_location(&tbl, &mut diag);
    let entry = find(&diag, "location.sunset").expect("bad clock should be reported");
    assert_eq!(entry.severity, Severity::Error);
    assert_eq!(entry.recovery_scope, RecoveryScope::Value);
}

#[test]
fn location_invalid_clock_without_custom_schedule_warns() {
    let tbl = parse("[location]\nsunset = \"25:99\"\n");
    let mut diag = Diagnostics::default();
    validate_location(&tbl, &mut diag);
    let entry = find(&diag, "location.sunset").expect("bad clock should be reported");
    assert_eq!(entry.severity, Severity::Warning);
    assert_eq!(entry.message, "\"25:99\" is not a time of day in HH:MM form");
}

#[test]
fn location_missing_clock_with_custom_schedule_errors() {
    let tbl = parse("[location]\ncustom_schedule = true\nsunrise = \"06:30\"\n");
    let mut diag = Diagnostics::default();
    validate_location(&tbl, &mut diag);
    let entry = find(&diag, "location.sunset").expect("missing clock should be reported");
    assert_eq!(entry.severity, Severity::Error);
    assert!(entry.message.contains("sunset"));
}

#[test]
fn location_missing_clock_without_custom_schedule_is_clean() {
    let tbl = parse("[location]\n");
    let mut diag = Diagnostics::default();
    validate_location(&tbl, &mut diag);
    assert!(diag.entries.is_empty());
}

#[test]
fn section_registry_knows_sections_and_custom_roots() {
    assert_eq!(section_names().len(), 24);
    assert_eq!(custom_root_keys().len(), 8);
    assert!(is_section_name("hot_corners"));
    assert!(!is_section_name("bar"));
    assert!(is_known_root_key("bar"));
    assert!(is_known_root_key("config_version"));
    assert!(is_known_root_key("storage"));
    assert!(!is_known_root_key("bars"));
}

#[test]
fn wallpaper_transition_keys_round_trip() {
    for t in [
        WallpaperTransition::Fade,
        WallpaperTransition::Wipe,
        WallpaperTransition::Disc,
        WallpaperTransition::Stripes,
        WallpaperTransition::Zoom,
        WallpaperTransition::Honeycomb,
    ] {
        assert_eq!(parse_wallpaper_transition(wallpaper_transition_key(t)), Some(t));
    }
    assert_eq!(parse_wallpaper_transition("  zoom \n"), Some(WallpaperTransition::Zoom));
    assert_eq!(parse_wallpaper_transition("Zoom"), None);
}

#[test]
fn notification_tokens_are_trimmed_and_lowercased() {
    assert_eq!(normalize_notification_match_token("  Firefox "), "firefox");
    assert_eq!(
        normalize_filter_allowed_urgency_strings(vec![" CRITICAL".to_string(), "Low".to_string()]),
        vec!["critical".to_string(), "low".to_string()]
    );
}

#[test]
fn unnamed_filters_get_positional_names() {
    let mut named = NotificationFilterConfig::default();
    named.name = "keep".to_string();
    let mut filters = vec![NotificationFilterConfig::default(), named, NotificationFilterConfig::default()];
    normalize_notification_filter_names(&mut filters);
    assert_eq!(filters[0].name, "filter_0");
    assert_eq!(filters[1].name, "keep");
    assert_eq!(filters[2].name, "filter_2");
}

#[test]
fn plugin_ids_must_not_be_blank() {
    assert!(is_valid_plugin_id("author/plugin"));
    assert!(!is_valid_plugin_id("   "));
    assert!(!is_valid_plugin_id(""));
}

#[test]
fn custom_colors_parse_strings_and_tables() {
    let map = parse(
        r##"
accent = "#ff0000"
blank = "   "
[dual]
color_dark = "#111111"
color_light = "#eeeeee"
blend = false
"##,
    );
    let mut out = Vec::new();
    parse_custom_colors_map(&map, &mut out);
    assert_eq!(out.len(), 2);
    assert_eq!(out[0].name, "accent");
    assert_eq!(out[0].color, "#ff0000");
    assert!(out[0].blend);
    assert_eq!(out[1].name, "dual");
    assert_eq!(out[1].color, "#111111");
    assert_eq!(out[1].color_light, "#eeeeee");
    assert!(!out[1].blend);
}

#[test]
fn append_unique_custom_colors_keeps_first_by_name() {
    let color = |name: &str, c: &str| TemplateColorConfig {
        name: name.to_string(),
        color: c.to_string(),
        color_dark: String::new(),
        color_light: String::new(),
        blend: true,
    };
    let mut into = vec![color("a", "1")];
    append_unique_custom_colors(&mut into, vec![color("a", "2"), color("b", "3"), color("b", "4")]);
    assert_eq!(into.len(), 2);
    assert_eq!(into[0].color, "1");
    assert_eq!(into[1].name, "b");
    assert_eq!(into[1].color, "3");
}

#[test]
fn desktop_widget_paths() {
    let p = |parts: &[&str]| parts.iter().map(|s| s.to_string()).collect::<Vec<String>>();
    assert!(is_known_desktop_widget_path(&p(&["desktop_widgets", "widget_order"])));
    assert!(is_known_desktop_widget_path(&p(&["desktop_widgets", "widget", "clock"])));
    assert!(is_known_desktop_widget_path(&p(&["desktop_widgets", "widget", "clock", "cx"])));
    assert!(is_known_desktop_widget_path(&p(&["desktop_widgets", "widget", "clock", "settings", "x"])));
    assert!(!is_known_desktop_widget_path(&p(&["desktop_widgets", "widget", "clock", "cx", "y"])));
    assert!(!is_known_desktop_widget_path(&p(&["desktop_widgets", "widget", "clock", "bogus"])));
    assert!(!is_known_desktop_widget_path(&p(&["desktop_widgets", "grid"])));
}

#[test]
fn state_identifiers_are_lowercase_words() {
    assert!(valid_state_identifier("wallpaper_panel"));
    assert!(valid_state_identifier("a1"));
    assert!(!valid_state_identifier(""));
    assert!(!valid_state_identifier("wallpaper.panel"));
    assert!(!valid_state_identifier("Upper"));
}

#[test]
fn bool_state_round_trips() {
    let mut store = StateStore::new("state.toml".to_string());
    store.finish_load(StateLoad::NoFile);
    assert_eq!(store.bool_value("wallpaper_panel", "flatten"), None);
    assert_eq!(store.set_bool("wallpaper_panel", "flatten", true), StateUpdate::Changed);
    assert_eq!(store.bool_value("wallpaper_panel", "flatten"), Some(true));
    assert_eq!(store.set_bool("wallpaper_panel", "flatten", true), StateUpdate::Unchanged);
    assert_eq!(store.set_bool("wallpaper_panel", "flatten", false), StateUpdate::Changed);
    assert_eq!(store.bool_value("wallpaper_panel", "flatten"), Some(false));
    assert_eq!(store.set_bool("wallpaper.panel", "flatten", true), StateUpdate::Rejected);
    assert_eq!(store.clear_owner("wallpaper_panel"), StateUpdate::Changed);
    assert_eq!(store.bool_value("wallpaper_panel", "flatten"), None);
    assert_eq!(store.clear_owner("wallpaper_panel"), StateUpdate::Unchanged);
}

#[test]
fn wrong_type_is_not_read_as_bool() {
    let mut store = StateStore::new("state.toml".to_string());
    store.finish_load(StateLoad::Parsed(parse("[wallpaper_panel]\nflatten = \"yes\"\n")));
    assert_eq!(store.bool_value("wallpaper_panel", "flatten"), None);
    assert_eq!(store.string_value("wallpaper_panel", "flatten"), Some("yes".to_string()));
    assert_eq!(store.set_bool("wallpaper_panel", "flatten", true), StateUpdate::Changed);
    assert_eq!(store.bool_value("wallpaper_panel", "flatten"), Some(true));
}

#[test]
fn state_store_without_path_rejects_writes_and_remembers_parse_errors() {
    let mut store = StateStore::default();
    assert_eq!(store.set_string("calendar_credentials", "personal_password", "secret"), StateUpdate::Rejected);
    store.set_path("state.toml".to_string());
    store.finish_load(StateLoad::ParseFailed("state.toml: bad".to_string()));
    assert_eq!(store.parse_error(), "state.toml: bad");
    assert_eq!(store.set_string("calendar_credentials", "personal_password", "secret"), StateUpdate::Changed);
    store.mark_written();
    assert_eq!(store.parse_error(), "");
    assert_eq!(
        store.string_value("calendar_credentials", "personal_password"),
        Some("secret".to_string())
    );
}

#[test]
fn expand_user_path_expands_a_leading_tilde() {
    assert_eq!(expand_user_path("~", Some("/home/ana")), "/home/ana");
    assert_eq!(expand_user_path("~/pics/a.png", Some("/home/ana")), "/home/ana/pics/a.png");
    assert_eq!(expand_user_path("~bob/x", Some("/home/ana")), "~bob/x");
    assert_eq!(expand_user_path("/abs/~/x", Some("/home/ana")), "/abs/~/x");
    assert_eq!(expand_user_path("", Some("/home/ana")), "");
    assert_eq!(expand_user_path("~/x", Some("")), "~/x");
    assert_eq!(expand_user_path("~/x", None), "~/x");
}

#[test]
fn state_store_loads_text_or_remembers_why_it_could_not() {
    let mut store = StateStore::new("state.toml".to_string());
    store.load_text("[wallpaper_panel]\nflatten = true\n", "state.toml");
    assert_eq!(store.parse_error(), "");
    assert_eq!(store.bool_value("wallpaper_panel", "flatten"), Some(true));
    store.load_text("[wallpaper_panel\n", "state.toml");
    assert!(store.parse_error().starts_with("state.toml: "));
    assert!(store.parse_error().len() > "state.toml: ".len());
    assert_eq!(store.bool_value("wallpaper_panel", "flatten"), None);
}

#[test]
fn refreshed_overrides_keep_the_old_table_when_the_text_is_broken() {
    let mut overrides = parse("[bar.main]\nthickness = 30\n");
    refresh_overrides(&mut overrides, "not = [valid");
    assert_eq!(int_at(&overrides, &["bar", "main", "thickness"]), Some(30));
    refresh_overrides(&mut overrides, "[bar.main]\nthickness = 44\n");
    assert_eq!(int_at(&overrides, &["bar", "main", "thickness"]), Some(44));
}

#[test]
fn merged_document_checks_run_in_order() {
    let merged = parse("bogus_root = 1\n[include]\nbogus = 1\n[bar.main]\nbogus = 2\n[theme]\nmode = \"dim\"\nnope = 1\n");
    let diag = validate_merged_config(&merged, None);
    let paths: Vec<&str> = diag.entries.iter().map(|e| e.path.as_str()).collect();
    assert_eq!(paths, vec!["theme.nope", "theme.mode", "bar.main.bogus", "include.bogus", "bogus_root"]);
    let clean = validate_merged_config(&parse("[bar.main]\nthickness = 30\n"), None);
    assert!(clean.entries.is_empty());
}

#[test]
fn bar_unknown_key_warns_but_position_and_monitor_are_exempt() {
    let tbl = parse(
        "[bar.main]\nposition = \"top\"\nenabled = true\nbogus = 1\n[bar.main.monitor.eDP-1]\nposition = \"bottom\"\n",
    );
    let mut diag = Diagnostics::default();
    validate_bars(&tbl, &mut diag);
    assert!(find(&diag, "bar.main.position").is_none());
    assert!(find(&diag, "bar.main.monitor").is_none());
    let entry = find(&diag, "bar.main.bogus").expect("truly unknown bar key should warn");
    assert_eq!(entry.severity, Severity::Warning);
}

#[test]
fn bar_order_key_is_skipped_entirely() {
    let tbl = parse("[bar]\norder = [\"main\"]\n");
    let mut diag = Diagnostics::default();
    validate_bars(&tbl, &mut diag);
    assert!(diag.entries.is_empty());
}

#[test]
fn bar_monitor_override_unknown_key_warns() {
    let tbl = parse("[bar.main.monitor.eDP-1]\nbogus_override = true\n");
    let mut diag = Diagnostics::default();
    validate_bars(&tbl, &mut diag);
    let entry = find(&diag, "bar.main.monitor.eDP-1.bogus_override")
        .expect("unknown monitor override key should warn");
    assert_eq!(entry.severity, Severity::Warning);
}

#[test]
fn bar_checks_reach_capsule_groups_dead_zones_and_layers() {
    let tbl = parse(
        "[bar.main]\nlayer = \"bottom\"\n[[bar.main.capsule_group]]\nid = \"g\"\nodd = 1\n[bar.main.dead_zone]\nactions = {}\nextra = 2\n[bar.main.monitor.dp]\nlayer = \"overlay\"\n[bar.main.monitor.dp.dead_zone]\nnope = 3\n",
    );
    let mut diag = Diagnostics::default();
    validate_bars(&tbl, &mut diag);
    let paths: Vec<&str> = diag.entries.iter().map(|e| e.path.as_str()).collect();
    assert_eq!(
        paths,
        vec![
            "bar.main.capsule_group.odd",
            "bar.main.dead_zone.extra",
            "bar.main.layer",
            "bar.main.monitor.dp.dead_zone.nope",
        ]
    );
    assert_eq!(diag.entries[2].message, "expected top or overlay, got \"bottom\"");
}

#[test]
fn unknown_key_in_registered_section_warns() {
    let tbl = parse("[accessibility]\nui_scale = 1.0\nui_scl = 1.25\n");
    let diag = validate_merged_config(&tbl, None);
    let entry = find(&diag, "accessibility.ui_scl").expect("unknown key should be reported");
    assert_eq!(entry.severity, Severity::Warning);
    assert_eq!(entry.message, "unknown setting");
}

#[test]
fn wallpaper_state_keys_are_not_unknown_settings() {
    let tbl = parse("[wallpaper]\nlast = \"x\"\nfavorite = 1\nbogus = 2\n");
    let diag = validate_merged_config(&tbl, None);
    let paths: Vec<&str> = diag.entries.iter().map(|e| e.path.as_str()).collect();
    assert_eq!(paths, vec!["wallpaper.bogus"]);
}

#[test]
fn enum_field_unknown_value_warns_via_check_against_defaults() {
    let tbl = parse("[wallpaper]\nfill_mode = \"bogus\"\n");
    let diag = validate_merged_config(&tbl, None);
    let entry = find(&diag, "wallpaper.fill_mode").expect("bad enum value should warn");
    assert_eq!(entry.severity, Severity::Warning);
    assert!(entry.message.contains("bogus"));
}

#[test]
fn nightlight_temperatures_too_close_are_reported_with_the_adjustment() {
    let tbl = parse("[nightlight]\ntemperature_day = 1050\ntemperature_night = 5000\n");
    let diag = validate_merged_config(&tbl, None);
    let entry = find(&diag, "nightlight").expect("temperature warning");
    assert_eq!(
        entry.message,
        "temperatures must satisfy day > night (day=1050K night=5000K); adjusted to day=1100K night=1000K"
    );
    let fine = validate_merged_config(&parse("[nightlight]\ntemperature_day = 6500\n"), None);
    assert!(fine.entries.is_empty());
}

#[test]
fn storage_and_calendar_file_secrets_need_an_absolute_file() {
    let tbl = parse("[storage]\nkey_source = \"file\"\n[calendar.account.work]\ncredential_source = \"file\"\npassword_file = \"~/pw\"\n");
    let diag = validate_merged_config(&tbl, Some("/home/ana"));
    assert_eq!(
        find(&diag, "storage.key_file").map(|e| e.message.as_str()),
        Some("storage with key_source = \"file\" requires key_file")
    );
    assert!(find(&diag, "calendar.account.work.password_file").is_none());
    let without_home = validate_merged_config(&tbl, None);
    assert_eq!(
        find(&without_home, "calendar.account.work.password_file").map(|e| e.message.as_str()),
        Some("password_file must resolve to an absolute path")
    );
    let stray = validate_merged_config(&parse("[storage]\nkey_file = \"/k\"\nkey_source = \"vault\"\n"), None);
    let paths: Vec<&str> = stray.entries.iter().map(|e| e.path.as_str()).collect();
    assert_eq!(paths, vec!["storage.key_source", "storage.key_file"]);
}

#[test]
fn plugin_names_and_ids_are_checked() {
    let tbl = parse("[plugins]\nenabled = [\"a/b\", \"  \"]\n[[plugins.source]]\nname = \"Bad Name\"\nkind = \"svn\"\n");
    let diag = validate_merged_config(&tbl, None);
    let paths: Vec<&str> = diag.entries.iter().map(|e| e.path.as_str()).collect();
    assert_eq!(paths, vec!["plugins.source.name", "plugins.source.kind", "plugins.enabled"]);
}

#[test]
fn hooks_table_sets_the_commands_of_its_keys_only() {
    let tbl = parse("started = [\"notify-send up\", 3, \"logger up\"]\nrebooting = \"not a list\"\n");
    let mut hooks = HooksConfig::default();
    hooks.wifi_enabled.push("keep".to_string());
    read_hooks_config(&tbl, &mut hooks);
    assert_eq!(hooks.commands(HookKind::Started), &["notify-send up".to_string(), "logger up".to_string()][..]);
    assert!(hooks.commands(HookKind::Rebooting).is_empty());
    assert_eq!(hooks.commands(HookKind::WifiEnabled), &["keep".to_string()][..]);
}
