use noctalia_config::schema::enum_sections::{
    read_calendar_account, read_plugin_source, read_wallpaper_automation, write_calendar_account,
    write_plugin_source, write_wallpaper_automation,
};
use noctalia_config::schema::monitor_sections::{read_monitor_override, read_monitor_overrides, write_monitor_override};
use noctalia_config::schema::nested_sections::{read_hot_corners, write_hot_corners};
use noctalia_config::schema::optional_sections::{
    read_dmenu_entry, read_launcher_provider, read_session_power, write_dmenu_entry,
    write_launcher_provider, write_session_power,
};
use noctalia_config::schema::plain_sections::{
    read_osd_kinds, read_shell_panel, read_weather, write_osd_kinds, write_shell_panel, write_weather,
};
use noctalia_config::schema::template_section::{read_user_template, write_user_template};
use noctalia_config::toml_text::parse_toml_table;
use noctalia_config::types::calendar::{CalendarAccountConfig, CalendarCredentialSource};
use noctalia_config::types::brightness::{BrightnessBackendPreference, BrightnessMonitorOverride};
use noctalia_config::types::hotcorners::{HotCornerConfig, HotCornersConfig};
use noctalia_config::types::osd::OsdKindsConfig;
use noctalia_config::types::plugins::{PluginSourceConfig, PluginSourceKind};
use noctalia_config::types::shell::{DmenuEntryConfig, LauncherProviderConfig, PanelConfig, ShellSessionPowerConfig};
use noctalia_config::types::theme::{TemplateCompareColorConfig, TemplateInputPathModesConfig, UserTemplateConfig};
use noctalia_config::types::wallpaper::{WallpaperAutomationConfig, WallpaperAutomationOrder};
use noctalia_config::types::weather::WeatherConfig;

#[test]
fn read_into_and_write_table_are_inverses() {
    let original = WeatherConfig {
        enabled: true,
        effects: false,
        refresh_minutes: 45,
        unit: "roundtrip".to_string(),
    };
    let tbl = write_weather(&original);
    let mut roundtrip = WeatherConfig::default();
    read_weather(&tbl, &mut roundtrip);
    assert_eq!(roundtrip.enabled, original.enabled);
    assert_eq!(roundtrip.unit, original.unit);
    assert_eq!(roundtrip, original);
}

#[test]
fn weather_reader_clamps_refresh_and_keeps_unset_fields() {
    let tbl = parse_toml_table("enabled = false\nrefresh_minutes = 1000\nunknown = 1").unwrap();
    let mut w = WeatherConfig::default();
    read_weather(&tbl, &mut w);
    assert!(!w.enabled);
    assert!(w.effects);
    assert_eq!(w.refresh_minutes, 240);
    assert_eq!(w.unit, "metric");

    let low = parse_toml_table("refresh_minutes = 1").unwrap();
    read_weather(&low, &mut w);
    assert_eq!(w.refresh_minutes, 5);
}

#[test]
fn weather_reader_ignores_fields_of_the_wrong_type() {
    let tbl = parse_toml_table("enabled = \"no\"\nunit = 3").unwrap();
    let mut w = WeatherConfig::default();
    read_weather(&tbl, &mut w);
    assert_eq!(w, WeatherConfig::default());
}

#[test]
fn panel_section_round_trips() {
    let mut panel = PanelConfig::default();
    panel.borders = false;
    panel.launcher_position = "center".to_string();
    let tbl = write_shell_panel(&panel);
    let mut back = PanelConfig::default();
    read_shell_panel(&tbl, &mut back);
    assert_eq!(back, panel);
}

#[test]
fn user_template_reader_trims_expands_and_collects() {
    let text = "name = \"  mine  \"\ninput_path = \"~/in.txt\"\noutput_path = [\"~/a\", \"\", \"b\", 4]\n\
                palette_export_variant_index = 2\n\
                [input_path_modes]\ndark = \"~/d\"\n\
                [compare_colors]\nprimary = \"#fff\"\nn = 3\n";
    let tbl = parse_toml_table(text).unwrap();
    let mut t = UserTemplateConfig::default();
    read_user_template(&tbl, &mut t, Some("/home/u"));
    assert_eq!(t.id, "mine");
    assert_eq!(t.input_path, "/home/u/in.txt");
    assert_eq!(t.output_paths, vec!["/home/u/a".to_string(), "b".to_string()]);
    assert_eq!(
        t.input_path_modes,
        Some(TemplateInputPathModesConfig { dark: "/home/u/d".to_string(), light: String::new() })
    );
    assert_eq!(
        t.colors_to_compare,
        vec![TemplateCompareColorConfig { name: "primary".to_string(), color: "#fff".to_string() }]
    );
    assert_eq!(t.index, 2);
    assert!(t.enabled);
}

#[test]
fn user_template_empty_output_path_keeps_previous() {
    let mut t = UserTemplateConfig::default();
    t.output_paths = vec!["kept".to_string()];
    let tbl = parse_toml_table("output_path = \"\"").unwrap();
    read_user_template(&tbl, &mut t, None);
    assert_eq!(t.output_paths, vec!["kept".to_string()]);

    let one = parse_toml_table("output_path = \"~/x\"").unwrap();
    read_user_template(&one, &mut t, None);
    assert_eq!(t.output_paths, vec!["~/x".to_string()]);
}

#[test]
fn user_template_write_then_read_gives_it_back() {
    let v = UserTemplateConfig {
        id: "kitty".to_string(),
        enabled: false,
        input_path: "/in".to_string(),
        input_path_modes: Some(TemplateInputPathModesConfig { dark: "/d".to_string(), light: "/l".to_string() }),
        output_paths: vec!["/o1".to_string(), "/o2".to_string()],
        output_path_dynamic: "/dyn".to_string(),
        compare_to: "dark".to_string(),
        colors_to_compare: vec![
            TemplateCompareColorConfig { name: "a".to_string(), color: "#000".to_string() },
            TemplateCompareColorConfig { name: "b".to_string(), color: "#111".to_string() },
        ],
        pre_hook: "pre".to_string(),
        post_hook: "post".to_string(),
        post_action: "kind".to_string(),
        index: -3,
    };
    let tbl = write_user_template(&v);
    let mut back = UserTemplateConfig::default();
    read_user_template(&tbl, &mut back, None);
    assert_eq!(back, v);
}

#[test]
fn osd_kinds_round_trip_and_partial_read() {
    let mut kinds = OsdKindsConfig::default();
    kinds.wifi = false;
    kinds.keyboard_backlight = false;
    let tbl = write_osd_kinds(&kinds);
    let mut back = OsdKindsConfig::default();
    read_osd_kinds(&tbl, &mut back);
    assert_eq!(back, kinds);

    let partial = parse_toml_table("dnd = false\nmedia = 1").unwrap();
    let mut k = OsdKindsConfig::default();
    read_osd_kinds(&partial, &mut k);
    assert!(!k.dnd);
    assert!(k.media);
    assert!(k.volume);
}

#[test]
fn dmenu_entry_reads_exec_as_command_and_prefix_as_exec() {
    let tbl = parse_toml_table("id = \"calc\"\nexec = \"qalc\"\nprefix = \"=\"\nfreeform = true").unwrap();
    let mut e = DmenuEntryConfig::default();
    read_dmenu_entry(&tbl, &mut e);
    assert_eq!(e.id, "calc");
    assert_eq!(e.command, "qalc");
    assert_eq!(e.exec_, Some("=".to_string()));
    assert_eq!(e.prefix, None);
    assert_eq!(e.label, None);
    assert!(e.freeform);

    let written = write_dmenu_entry(&e);
    let keys: Vec<String> = written.entries.iter().map(|x| x.key.clone()).collect();
    assert_eq!(keys, vec!["id", "exec", "prefix", "freeform"]);
    let mut back = DmenuEntryConfig::default();
    read_dmenu_entry(&written, &mut back);
    assert_eq!(back, e);
}

#[test]
fn launcher_provider_global_is_optional() {
    let mut p = LauncherProviderConfig::default();
    read_launcher_provider(&parse_toml_table("prefix = \">\"").unwrap(), &mut p);
    assert_eq!(p.prefix, ">");
    assert_eq!(p.global, None);
    read_launcher_provider(&parse_toml_table("global = false").unwrap(), &mut p);
    assert_eq!(p.global, Some(false));
    assert_eq!(write_launcher_provider(&p).entries.len(), 2);
}

#[test]
fn session_power_commands_are_trimmed_and_blank_ones_ignored() {
    let tbl = parse_toml_table("suspend = \"  systemctl suspend  \"\nreboot = \"   \"").unwrap();
    let mut s = ShellSessionPowerConfig::default();
    s.reboot = Some("old".to_string());
    read_session_power(&tbl, &mut s);
    assert_eq!(s.suspend, Some("systemctl suspend".to_string()));
    assert_eq!(s.reboot, Some("old".to_string()));
    assert_eq!(s.shutdown, None);

    let written = write_session_power(&s);
    assert_eq!(written.entries.len(), 2);
    let mut back = ShellSessionPowerConfig::default();
    read_session_power(&written, &mut back);
    assert_eq!(back, s);
}

#[test]
fn hot_corner_sub_tables_start_from_default_corner() {
    let mut hc = HotCornersConfig::default();
    hc.top_right.action = "launcher".to_string();
    hc.top_right.command = "kept?".to_string();
    let tbl = parse_toml_table(
        "enabled = true\ndelay_ms = 5000\n[top_left]\naction = \"overview\"\n[top_right]\ncommand = \"run\"\n",
    )
    .unwrap();
    read_hot_corners(&tbl, &mut hc);
    assert!(hc.enabled);
    assert_eq!(hc.delay_ms, 2000);
    assert_eq!(hc.top_left.action, "overview");
    assert_eq!(hc.top_left.command, "");
    assert_eq!(hc.top_right.action, "none");
    assert_eq!(hc.top_right.command, "run");
    assert_eq!(hc.bottom_left, HotCornerConfig::default());

    let written = write_hot_corners(&hc);
    let mut back = HotCornersConfig::default();
    read_hot_corners(&written, &mut back);
    assert_eq!(back, hc);
}

#[test]
fn wallpaper_automation_order_is_matched_after_trimming() {
    let mut w = WallpaperAutomationConfig::default();
    let tbl = parse_toml_table("enabled = true\ninterval_seconds = 0\norder = \"  alphabetical \"\nrecursive = true").unwrap();
    read_wallpaper_automation(&tbl, &mut w);
    assert!(w.enabled);
    assert_eq!(w.interval_seconds, 1);
    assert_eq!(w.order, WallpaperAutomationOrder::Alphabetical);
    assert!(w.recursive);

    let bad = parse_toml_table("order = \"shuffle\"\ninterval_seconds = 100000").unwrap();
    read_wallpaper_automation(&bad, &mut w);
    assert_eq!(w.order, WallpaperAutomationOrder::Alphabetical);
    assert_eq!(w.interval_seconds, 86400);

    let written = write_wallpaper_automation(&w);
    let mut back = WallpaperAutomationConfig::default();
    read_wallpaper_automation(&written, &mut back);
    assert_eq!(back, w);
}

#[test]
fn brightness_monitor_map_reads_each_table_named_by_its_key() {
    let m = parse_toml_table(
        "x = 1\n[dp1]\nbackend = \" ddcutil \"\n[edp]\nmatch = \"eDP-1\"\nbackend = \"bogus\"\n",
    )
    .unwrap();
    let overrides = read_monitor_overrides(&m);
    assert_eq!(overrides.len(), 2);
    assert_eq!(overrides[0].match_, "dp1");
    assert_eq!(overrides[0].backend, Some(BrightnessBackendPreference::Ddcutil));
    assert_eq!(overrides[1].match_, "eDP-1");
    assert_eq!(overrides[1].backend, None);

    let none = parse_toml_table("backend = \"none\"").unwrap();
    let mut o = BrightnessMonitorOverride::default();
    read_monitor_override(&none, &mut o);
    assert_eq!(o.backend, Some(BrightnessBackendPreference::Disabled));
    let written = write_monitor_override(&o);
    let mut back = BrightnessMonitorOverride::default();
    read_monitor_override(&written, &mut back);
    assert_eq!(back, o);
}

#[test]
fn plugin_source_rejects_invalid_names_and_expands_location() {
    let mut src = PluginSourceConfig::default();
    let tbl = parse_toml_table("name = \"my-src\"\nkind = \"path\"\nlocation = \"~/plugins\"").unwrap();
    read_plugin_source(&tbl, &mut src, Some("/home/u"));
    assert_eq!(src.name, "my-src");
    assert_eq!(src.kind, PluginSourceKind::Path);
    assert_eq!(src.location, "/home/u/plugins");

    let bad = parse_toml_table("name = \"../evil\"\nkind = \"svn\"").unwrap();
    read_plugin_source(&bad, &mut src, None);
    assert_eq!(src.name, "my-src");
    assert_eq!(src.kind, PluginSourceKind::Path);

    let written = write_plugin_source(&src);
    let mut back = PluginSourceConfig::default();
    back.enabled = src.enabled;
    read_plugin_source(&written, &mut back, None);
    assert_eq!(back, src);
}

#[test]
fn calendar_account_accepts_both_secret_service_spellings() {
    let mut a = CalendarAccountConfig::default();
    a.id = "work".to_string();
    a.credential_source = CalendarCredentialSource::File;
    let tbl = parse_toml_table(
        "type = \"caldav\"\nname = \"Work\"\nenabled_calendars = [\"a\", 1, \"b\"]\ncredential_source = \"secret-service\"\npassword_file = \"~/pw\"",
    )
    .unwrap();
    read_calendar_account(&tbl, &mut a, Some("/home/u"));
    assert_eq!(a.id, "work");
    assert_eq!(a.type_, "caldav");
    assert_eq!(a.display_name, "Work");
    assert_eq!(a.calendars, vec!["a".to_string(), "b".to_string()]);
    assert_eq!(a.credential_source, CalendarCredentialSource::SecretService);
    assert_eq!(a.password_file, "/home/u/pw");

    let written = write_calendar_account(&a);
    let mut back = CalendarAccountConfig::default();
    back.id = a.id.clone();
    read_calendar_account(&written, &mut back, None);
    assert_eq!(back, a);
}
