use noctalia_config::migrations::{
    apply_pending_config_migrations, config_migrations, current_config_version,
    legacy_config_fingerprint_has_new_issues, legacy_config_issue_fingerprint,
    legacy_config_reminder_interval_elapsed, normalize_legacy_config, stored_config_version, ConfigMigration,
    LegacyConfigIssue, MigrationStep, K_LEGACY_CONFIG_REMINDER_INTERVAL_SECONDS,
};
use noctalia_config::schema::diagnostics::Diagnostics;
use noctalia_config::value::{TomlEntry, TomlTable, TomlValue};

fn to_value(v: &toml::Value) -> TomlValue {
    match v {
        toml::Value::String(s) => TomlValue::String(s.clone()),
        toml::Value::Integer(i) => TomlValue::Integer(*i),
        toml::Value::Float(f) => TomlValue::Float(f.to_bits()),
        toml::Value::Boolean(b) => TomlValue::Boolean(*b),
        toml::Value::Datetime(d) => TomlValue::Datetime(d.to_string()),
        toml::Value::Array(a) => TomlValue::Array(a.iter().map(to_value).collect()),
        toml::Value::Table(t) => TomlValue::Table(to_table(t)),
    }
}

fn to_table(t: &toml::Table) -> TomlTable {
    TomlTable {
        entries: t
            .iter()
            .map(|(k, v)| TomlEntry { key: k.clone(), value: to_value(v) })
            .collect(),
    }
}

fn parse(s: &str) -> TomlTable {
    to_table(&s.parse::<toml::Table>().expect("test fixture must be valid TOML"))
}

fn at<'a>(t: &'a TomlTable, path: &[&str]) -> Option<&'a TomlValue> {
    let (first, rest) = path.split_first()?;
    let v = t.get(first)?;
    if rest.is_empty() {
        Some(v)
    } else {
        at(v.as_table()?, rest)
    }
}

fn int_at(t: &TomlTable, path: &[&str]) -> Option<i64> {
    at(t, path).and_then(|v| v.as_integer())
}

fn bool_at(t: &TomlTable, path: &[&str]) -> Option<bool> {
    at(t, path).and_then(|v| v.as_bool())
}

fn str_at<'a>(t: &'a TomlTable, path: &[&str]) -> Option<&'a str> {
    at(t, path).and_then(|v| v.as_str())
}

#[test]
fn negative_radius_migration() {
    let mut root = parse(
        r#"
[bar.main]
radius = -12
radius_top_left = -20
radius_top_right = 8

[bar.main.monitor.dp1]
match = "DP-1"
radius = -16

[dock]
radius = -7
"#,
    );

    let mut issues = Vec::new();
    normalize_legacy_config(&mut root, &mut issues);

    assert_eq!(int_at(&root, &["bar", "main", "radius"]), Some(12));
    assert_eq!(int_at(&root, &["bar", "main", "radius_top_left"]), Some(20));
    assert_eq!(int_at(&root, &["bar", "main", "radius_top_right"]), Some(8));
    assert_eq!(bool_at(&root, &["bar", "main", "concave_edge_corners"]), Some(true));
    assert_eq!(int_at(&root, &["bar", "main", "monitor", "dp1", "radius"]), Some(16));
    assert_eq!(bool_at(&root, &["bar", "main", "monitor", "dp1", "concave_edge_corners"]), Some(true));
    assert_eq!(int_at(&root, &["dock", "radius"]), Some(-7));
    assert_eq!(issues.len(), 2);

    let mut second_pass_issues = Vec::new();
    normalize_legacy_config(&mut root, &mut second_pass_issues);
    assert!(second_pass_issues.is_empty());
}

#[test]
fn extreme_negative_radius() {
    let mut bar = TomlTable::new();
    bar.insert("radius".to_string(), TomlValue::Integer(i64::MIN));
    let mut bars = TomlTable::new();
    bars.insert("main".to_string(), TomlValue::Table(bar));
    let mut root = TomlTable::new();
    root.insert("bar".to_string(), TomlValue::Table(bars));

    let mut issues = Vec::new();
    normalize_legacy_config(&mut root, &mut issues);
    assert_eq!(int_at(&root, &["bar", "main", "radius"]), Some(500));
}

#[test]
fn custom_schedule_migration() {
    let mut legacy = parse(
        r#"
[location]
sunset = "20:30"
sunrise = "07:30"
"#,
    );
    let mut issues = Vec::new();
    normalize_legacy_config(&mut legacy, &mut issues);
    assert_eq!(bool_at(&legacy, &["location", "custom_schedule"]), Some(true));
    assert_eq!(issues.len(), 1);

    let mut second_pass_issues = Vec::new();
    normalize_legacy_config(&mut legacy, &mut second_pass_issues);
    assert!(second_pass_issues.is_empty());

    for source in [
        "auto_locate = true",
        "address = \"Toronto, ON\"",
        "latitude = 52.52\nlongitude = 13.405",
    ] {
        let mut coords = parse(&format!("[location]\nsunset = \"20:30\"\nsunrise = \"07:30\"\n{source}\n"));
        let mut coord_issues = Vec::new();
        normalize_legacy_config(&mut coords, &mut coord_issues);
        assert!(at(&coords, &["location", "custom_schedule"]).is_none());
        assert!(coord_issues.is_empty());
    }

    let mut explicit_off = parse(
        r#"
[location]
custom_schedule = false
sunset = "20:30"
sunrise = "07:30"
"#,
    );
    let mut off_issues = Vec::new();
    normalize_legacy_config(&mut explicit_off, &mut off_issues);
    assert_eq!(bool_at(&explicit_off, &["location", "custom_schedule"]), Some(false));
}

#[test]
fn widget_actions_migration() {
    let mut enabled = parse(
        r#"
[shell]
middle_click_opens_widget_settings = true
"#,
    );
    let mut enabled_issues = Vec::new();
    normalize_legacy_config(&mut enabled, &mut enabled_issues);
    assert!(at(&enabled, &["shell", "middle_click_opens_widget_settings"]).is_none());
    assert!(enabled.get("bar").is_none());

    let mut disabled = parse(
        r#"
[shell]
middle_click_opens_widget_settings = false

[bar.default]
position = "top"

[bar.secondary]
position = "bottom"
"#,
    );
    let mut disabled_issues = Vec::new();
    normalize_legacy_config(&mut disabled, &mut disabled_issues);
    assert!(at(&disabled, &["shell", "middle_click_opens_widget_settings"]).is_none());
    for bar_name in ["default", "secondary"] {
        assert_eq!(str_at(&disabled, &["bar", bar_name, "actions", "middle"]), Some("none"));
    }

    let mut no_bars = parse(
        r#"
[shell]
middle_click_opens_widget_settings = false
"#,
    );
    let mut no_bar_issues = Vec::new();
    normalize_legacy_config(&mut no_bars, &mut no_bar_issues);
    assert_eq!(str_at(&no_bars, &["bar", "default", "actions", "middle"]), Some("none"));

    let mut explicit_binding = parse(
        r#"
[shell]
middle_click_opens_widget_settings = false

[bar.default.actions]
middle = "media toggle"
"#,
    );
    let mut explicit_issues = Vec::new();
    normalize_legacy_config(&mut explicit_binding, &mut explicit_issues);
    assert_eq!(str_at(&explicit_binding, &["bar", "default", "actions", "middle"]), Some("media toggle"));

    let mut second_pass_issues = Vec::new();
    normalize_legacy_config(&mut disabled, &mut second_pass_issues);
    assert!(second_pass_issues.is_empty());
}

#[test]
fn widget_gesture_settings_migration() {
    let mut config = parse(
        r#"
[widget.workspaces]
enable_scroll = false

[widget.taskbar]
enable_scroll = true

[widget.my_profile]
type = "power_profile"
enable_scroll = false

[widget.keyboard_layout]
cycle_command = "hyprctl switchxkblayout all next"

[widget.plugin_thing]
type = "someone/plugin:entry"
enable_scroll = false
"#,
    );
    let mut issues = Vec::new();
    normalize_legacy_config(&mut config, &mut issues);

    for gesture in ["scroll_up", "scroll_down"] {
        assert_eq!(str_at(&config, &["widget", "workspaces", "actions", gesture]), Some("none"));
    }
    assert!(at(&config, &["widget", "workspaces", "enable_scroll"]).is_none());
    assert!(at(&config, &["widget", "taskbar", "enable_scroll"]).is_none());
    assert!(at(&config, &["widget", "taskbar", "actions"]).is_none());
    assert_eq!(str_at(&config, &["widget", "my_profile", "actions", "scroll_up"]), Some("none"));
    assert_eq!(
        str_at(&config, &["widget", "keyboard_layout", "actions", "left"]),
        Some("exec hyprctl switchxkblayout all next")
    );
    assert!(at(&config, &["widget", "keyboard_layout", "cycle_command"]).is_none());
    assert_eq!(bool_at(&config, &["widget", "plugin_thing", "enable_scroll"]), Some(false));

    let mut second_pass_issues = Vec::new();
    normalize_legacy_config(&mut config, &mut second_pass_issues);
    assert!(second_pass_issues.is_empty());
}

#[test]
fn remaining_widget_gestures_migration() {
    let mut config = parse(
        r#"
[widget.media]
enable_scroll = false

[widget.volume]
scroll_step = 10

[widget.mic]
type = "volume"
device = "input"
scroll_step = 2

[widget.brightness]
enable_scroll = true
scroll_step = 5

[widget.screenshot]
primary_click = "fullscreen"

[widget.shot2]
type = "screenshot"
primary_click = "region"
"#,
    );
    let mut issues = Vec::new();
    normalize_legacy_config(&mut config, &mut issues);

    for gesture in ["scroll_up", "scroll_down"] {
        assert_eq!(str_at(&config, &["widget", "media", "actions", gesture]), Some("none"));
    }
    assert_eq!(str_at(&config, &["widget", "volume", "actions", "scroll_up"]), Some("volume-up 10%"));
    assert_eq!(str_at(&config, &["widget", "mic", "actions", "scroll_down"]), Some("mic-volume-down 2%"));
    assert!(at(&config, &["widget", "brightness", "scroll_step"]).is_none());
    assert!(at(&config, &["widget", "brightness", "actions"]).is_none());
    assert_eq!(str_at(&config, &["widget", "screenshot", "actions", "left"]), Some("screenshot-fullscreen"));
    assert!(at(&config, &["widget", "shot2", "actions"]).is_none());
    assert!(at(&config, &["widget", "screenshot", "primary_click"]).is_none());

    let mut second_pass_issues = Vec::new();
    normalize_legacy_config(&mut config, &mut second_pass_issues);
    assert!(second_pass_issues.is_empty());
}

#[test]
fn custom_button_commands_migration() {
    let mut config = parse(
        r#"
[widget.custom_button]
command = "notify-send 'hello world'"
right_command = "playerctl next"
scroll_up_command = "brightnessctl set +5%"

[widget.dead_scroll]
type = "custom_button"
enable_scroll = false
scroll_up_command = "echo up"

[widget.explicit]
type = "custom_button"
command = "echo old"

[widget.explicit.actions]
left = "media toggle"
"#,
    );
    let mut issues = Vec::new();
    normalize_legacy_config(&mut config, &mut issues);

    assert_eq!(
        str_at(&config, &["widget", "custom_button", "actions", "left"]),
        Some("exec notify-send 'hello world'")
    );
    assert_eq!(str_at(&config, &["widget", "custom_button", "actions", "right"]), Some("exec playerctl next"));
    assert_eq!(
        str_at(&config, &["widget", "custom_button", "actions", "scroll_up"]),
        Some("exec brightnessctl set +5%")
    );
    for key in ["command", "right_command", "scroll_up_command"] {
        assert!(at(&config, &["widget", "custom_button", key]).is_none());
    }
    assert_eq!(str_at(&config, &["widget", "dead_scroll", "actions", "scroll_up"]), Some("none"));
    assert_eq!(str_at(&config, &["widget", "explicit", "actions", "left"]), Some("media toggle"));

    let mut second_pass_issues = Vec::new();
    normalize_legacy_config(&mut config, &mut second_pass_issues);
    assert!(second_pass_issues.is_empty());
}

#[test]
fn dead_zone_actions_migration() {
    let mut config = parse(
        r#"
[bar.default.dead_zone]
command = "notify-send left"
right_command = "notify-send right"

[bar.default.monitor.DP-1.dead_zone]
scroll_up_command = "notify-send up"

[bar.other.dead_zone]
middle_command = ""
"#,
    );
    let mut issues = Vec::new();
    normalize_legacy_config(&mut config, &mut issues);

    assert_eq!(
        str_at(&config, &["bar", "default", "dead_zone", "actions", "left"]),
        Some("exec notify-send left")
    );
    assert_eq!(
        str_at(&config, &["bar", "default", "dead_zone", "actions", "right"]),
        Some("exec notify-send right")
    );
    assert!(at(&config, &["bar", "default", "dead_zone", "command"]).is_none());
    assert_eq!(
        str_at(&config, &["bar", "default", "monitor", "DP-1", "dead_zone", "actions", "scroll_up"]),
        Some("exec notify-send up")
    );
    assert!(at(&config, &["bar", "other", "dead_zone", "actions"]).is_none());

    let mut second_pass_issues = Vec::new();
    normalize_legacy_config(&mut config, &mut second_pass_issues);
    assert!(second_pass_issues.is_empty());
}

#[test]
fn version_gating() {
    let mut legacy = parse(
        r#"
[bar.main]
radius = -10
"#,
    );
    let mut diag = Diagnostics::default();
    let stored = stored_config_version(&legacy, &mut diag);
    assert_eq!(stored, Some(0));
    let migrations = config_migrations();
    let applied = apply_pending_config_migrations(&mut legacy, stored.unwrap_or(0), &mut diag, &migrations);
    assert_eq!(applied, current_config_version());
    assert_eq!(int_at(&legacy, &["bar", "main", "radius"]), Some(10));

    let mut current = parse(
        r#"
config_version = 1
[bar.main]
radius = -10
"#,
    );
    let mut current_diag = Diagnostics::default();
    let current_stored = stored_config_version(&current, &mut current_diag);
    assert_eq!(current_stored, Some(1));
    apply_pending_config_migrations(&mut current, current_stored.unwrap_or(0), &mut current_diag, &migrations);
    assert_eq!(int_at(&current, &["bar", "main", "radius"]), Some(-10));

    let invalid = parse("config_version = \"one\"");
    let mut invalid_diag = Diagnostics::default();
    assert!(stored_config_version(&invalid, &mut invalid_diag).is_none());
    assert!(invalid_diag.has_errors());
    assert!(invalid_diag.has_fatal_errors());

    let future = parse("config_version = 999");
    let mut future_diag = Diagnostics::default();
    assert!(stored_config_version(&future, &mut future_diag).is_none());
    assert!(future_diag.has_errors());
    assert!(future_diag.has_fatal_errors());

    let mut baseline = Diagnostics::default();
    baseline.component_error("widget.clock.timezone", "widget.clock", "unknown timezone");
    let mut candidate = baseline.clone();
    candidate.error("accessibility.ui_scale", "expected a number");
    let introduced = candidate.introduced_errors_compared_to(&baseline);
    assert_eq!(introduced.entries.len(), 1);
    assert_eq!(introduced.entries[0].path, "accessibility.ui_scale");
}

#[test]
fn reminder_fingerprint() {
    let first = vec![LegacyConfigIssue {
        migration_version: 1,
        path: "bar.main".to_string(),
        message: "message".to_string(),
    }];
    let reordered = vec![
        LegacyConfigIssue {
            migration_version: 1,
            path: "bar.second".to_string(),
            message: "message".to_string(),
        },
        LegacyConfigIssue {
            migration_version: 1,
            path: "bar.main".to_string(),
            message: "different display message".to_string(),
        },
    ];
    let same_reordered = vec![
        LegacyConfigIssue {
            migration_version: 1,
            path: "bar.main".to_string(),
            message: "message".to_string(),
        },
        LegacyConfigIssue {
            migration_version: 1,
            path: "bar.second".to_string(),
            message: "message".to_string(),
        },
    ];

    let first_fingerprint = legacy_config_issue_fingerprint(&first);
    let expanded_fingerprint = legacy_config_issue_fingerprint(&reordered);
    assert_eq!(expanded_fingerprint, legacy_config_issue_fingerprint(&same_reordered));
    assert!(legacy_config_fingerprint_has_new_issues(&expanded_fingerprint, &first_fingerprint));
    assert!(!legacy_config_fingerprint_has_new_issues(&first_fingerprint, &expanded_fingerprint));

    const K_START: i64 = 1_000_000;
    assert!(!legacy_config_reminder_interval_elapsed(
        K_START + K_LEGACY_CONFIG_REMINDER_INTERVAL_SECONDS - 1,
        K_START
    ));
    assert!(legacy_config_reminder_interval_elapsed(K_START + K_LEGACY_CONFIG_REMINDER_INTERVAL_SECONDS, K_START));
    assert!(legacy_config_reminder_interval_elapsed(K_START - 1, K_START));
}

#[test]
fn registry_ordering() {
    let mut expected_version = 1;
    for migration in config_migrations() {
        assert_eq!(migration.to_version, expected_version);
        assert!(!migration.summary.is_empty());
        expected_version += 1;
    }
    assert_eq!(expected_version - 1, current_config_version());
}

#[test]
fn large_current_registry_skips_bodies() {
    let mut migrations = Vec::new();
    for version in 1..=100 {
        migrations.push(ConfigMigration {
            to_version: version,
            summary: "synthetic migration",
            step: MigrationStep::NegativeBarRadii,
        });
    }

    let mut root = parse("[bar.main]\nradius = -3\n");
    let mut diag = Diagnostics::default();
    let current = apply_pending_config_migrations(&mut root, 100, &mut diag, &migrations);
    assert_eq!(current, 100);
    assert_eq!(diag.entries.len(), 0);
    assert_eq!(int_at(&root, &["bar", "main", "radius"]), Some(-3));

    let upgraded = apply_pending_config_migrations(&mut root, 99, &mut diag, &migrations);
    assert_eq!(upgraded, 100);
    assert_eq!(diag.entries.len(), 1);
    assert_eq!(int_at(&root, &["bar", "main", "radius"]), Some(3));
}

#[test]
fn migration_warnings_name_paths_and_messages() {
    let mut root = parse("[bar.main]\nradius = -4\n\n[widget.volume]\nscroll_step = 3\n");
    let mut diag = Diagnostics::default();
    let applied = apply_pending_config_migrations(&mut root, 0, &mut diag, &config_migrations());
    assert_eq!(applied, 8);
    assert_eq!(diag.entries.len(), 2);
    assert_eq!(diag.entries[0].path, "bar.main");
    assert_eq!(diag.entries[0].message, "migrated negative corner radii to concave_edge_corners");
    assert_eq!(diag.entries[1].path, "widget.volume");
    assert_eq!(diag.entries[1].message, "scroll_step is now the step argument of the scroll gesture bindings");
    assert_eq!(str_at(&root, &["widget", "volume", "actions", "scroll_up"]), Some("volume-up 3%"));
}

#[test]
fn login_box_hint_is_removed_by_type_or_id() {
    let mut root = parse(
        r#"
[lockscreen_widgets.widget.a.settings]
show_password_hint = true
[lockscreen_widgets.widget.a]
type = "login_box"

[lockscreen_widgets.widget."lockscreen-login-box@2".settings]
show_password_hint = false

[lockscreen_widgets.widget.clock.settings]
show_password_hint = true
"#,
    );
    let mut issues = Vec::new();
    normalize_legacy_config(&mut root, &mut issues);
    assert!(at(&root, &["lockscreen_widgets", "widget", "a", "settings", "show_password_hint"]).is_none());
    assert!(at(&root, &["lockscreen_widgets", "widget", "lockscreen-login-box@2", "settings", "show_password_hint"]).is_none());
    assert_eq!(bool_at(&root, &["lockscreen_widgets", "widget", "clock", "settings", "show_password_hint"]), Some(true));
    assert_eq!(issues.len(), 2);
    assert!(issues.iter().all(|i| i.migration_version == 8));
}

#[test]
fn stored_version_rejects_negative_and_reports_unsupported_message() {
    let negative = parse("config_version = -1");
    let mut diag = Diagnostics::default();
    assert!(stored_config_version(&negative, &mut diag).is_none());
    assert_eq!(diag.entries[0].code, "config.version.invalid");

    let future = parse("config_version = 12");
    let mut future_diag = Diagnostics::default();
    assert!(stored_config_version(&future, &mut future_diag).is_none());
    assert_eq!(future_diag.entries[0].code, "config.version.unsupported");
    assert_eq!(future_diag.entries[0].message, "version 12 is newer than supported version 8");

    let exact = parse("config_version = 8");
    let mut exact_diag = Diagnostics::default();
    assert_eq!(stored_config_version(&exact, &mut exact_diag), Some(8));
    assert!(exact_diag.entries.is_empty());
}

#[test]
fn fingerprint_is_sorted_hex_without_duplicates() {
    let issue = |path: &str| LegacyConfigIssue {
        migration_version: 1,
        path: path.to_string(),
        message: String::new(),
    };
    let fp = legacy_config_issue_fingerprint(&[issue("a"), issue("a")]);
    assert_eq!(fp.len(), 16);
    assert!(fp.chars().all(|c| c.is_ascii_hexdigit()));
    assert_eq!(legacy_config_issue_fingerprint(&[]), "");
    let two = legacy_config_issue_fingerprint(&[issue("b"), issue("a")]);
    let parts: Vec<&str> = two.split(',').collect();
    assert_eq!(parts.len(), 2);
    assert!(parts[0] < parts[1]);
}

#[test]
fn normalizing_twice_changes_nothing_more() {
    let mut root = parse(
        r#"
[shell]
middle_click_opens_widget_settings = false

[location]
sunset = "20:30"
sunrise = "07:30"

[bar.main]
radius = -9
dead_zone = { command = "notify-send hi" }

[bar.main.monitor.dp1]
radius_top_left = -4
dead_zone = { right_command = "true" }

[widget.ws]
type = "workspaces"
enable_scroll = false

[widget.kb]
type = "keyboard_layout"
cycle_command = "switch"

[widget.vol]
type = "volume"
enable_scroll = false
scroll_step = 10

[widget.shot]
type = "screenshot"
primary_click = "fullscreen"

[widget.btn]
type = "custom_button"
command = "launch"
scroll_down_command = "down"

[lockscreen_widgets.widget.box]
type = "login_box"
settings = { show_password_hint = true }
"#,
    );
    let mut issues = Vec::new();
    normalize_legacy_config(&mut root, &mut issues);
    let versions: Vec<i32> = issues.iter().map(|i| i.migration_version).collect();
    for v in 1..=8 {
        assert!(versions.contains(&v), "migration {v} reported nothing");
    }
    let once = format!("{:?}", root);
    let mut second_pass_issues = Vec::new();
    normalize_legacy_config(&mut root, &mut second_pass_issues);
    assert!(second_pass_issues.is_empty());
    assert_eq!(format!("{:?}", root), once);
}
