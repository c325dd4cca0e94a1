use noctalia_config::types::keybinds::{default_keybind_set, KeyChord, KeybindAction, XKB_KEY_ISO_LEFT_TAB};
use std::collections::HashSet;
use noctalia_config::types::bar::{
    capsule_group_refs_for_bar_scope, capsule_group_refs_for_monitor_scope, capsule_group_token_id,
    collect_capsule_group_refs, effective_lane, find_bar_capsule_group_style, find_bytes, is_capsule_group_token,
    make_capsule_group_token, output_matches_selector, reconcile_capsule_groups, trim_c_whitespace, BarLanes,
    CapsuleGroupSource, MonitorLanes,
};
use noctalia_config::types::idle::{default_idle_behaviors, resolve_idle_behavior_actions, IdleActionKind, IdleBehaviorConfig};
use noctalia_config::types::battery::BatteryConfig;
use noctalia_config::types::calendar::CalendarConfig;
use noctalia_config::types::config::ConfigChangeSet;
use noctalia_config::types::control_center::ControlCenterConfig;
use noctalia_config::types::hooks::{hook_kind_from_key, hook_kind_key, HookKind, HooksConfig};
use noctalia_config::types::hotcorners::HotCornersConfig;
use noctalia_config::types::nightlight::NightLightConfig;
use noctalia_config::types::notification::NotificationFilterConfig;
use noctalia_config::types::plugins::{default_plugin_sources, is_default_plugin_source_name, is_valid_plugin_source_name};
use noctalia_config::types::shadow::{shadow_direction_offset, ShadowDirection, ShadowDirectionOffset};
use noctalia_config::types::shell::{default_control_center_shortcuts, default_session_panel_actions, SessionPanelActionConfig};
use noctalia_config::types::storage::{StorageConfig, StorageKeySource};
use noctalia_config::types::theme::ThemeConfig;
use noctalia_config::types::wallpaper::{PaletteSource, ThemeMode};
use noctalia_config::types::weather::WeatherConfig;

#[test]
fn capsule_group_token_helpers_round_trip() {
    let token = make_capsule_group_token("abc123");
    assert_eq!(token, "group:abc123");
    assert!(is_capsule_group_token(&token));
    assert_eq!(capsule_group_token_id(&token), "abc123");
    assert!(!is_capsule_group_token("abc123"));
    assert_eq!(capsule_group_token_id("abc123"), "");
}

#[test]
fn output_matches_selector_exact_connector_match() {
    assert!(output_matches_selector("DP-1", "DP-1", ""));
    assert!(!output_matches_selector("DP-1", "DP-2", ""));
}

#[test]
fn output_matches_selector_word_boundary_in_description() {
    assert!(output_matches_selector("DP-1", "", "BOE 0x0BCA DP-1 panel"));
    assert!(!output_matches_selector("DP-1", "", "BOE 0x0BCA eDP-1"));
}

#[test]
fn output_matches_selector_no_match_returns_false() {
    assert!(!output_matches_selector("HDMI-1", "DP-1", "some description"));
}

#[test]
fn find_bytes_handles_empty_needle_like_std_string_find() {
    assert_eq!(find_bytes(b"abc", b"", 0), Some(0));
    assert_eq!(find_bytes(b"abc", b"", 3), Some(3));
    assert_eq!(find_bytes(b"abc", b"", 4), None);
    assert_eq!(find_bytes(b"abc", b"b", 0), Some(1));
    assert_eq!(find_bytes(b"abc", b"z", 0), None);
}

#[test]
fn trim_c_whitespace_strips_ascii_space_only() {
    assert_eq!(trim_c_whitespace("  \t DP-1 \n"), "DP-1");
    assert_eq!(trim_c_whitespace(""), "");
    assert_eq!(trim_c_whitespace("\u{a0}x\u{a0}"), "\u{a0}x\u{a0}");
}

#[test]
fn capsule_group_refs_collect_each_group_once() {
    let lane = vec![
        "clock".to_string(),
        "group:a".to_string(),
        "group:b".to_string(),
        "group:a".to_string(),
    ];
    let mut out = vec!["b".to_string()];
    collect_capsule_group_refs(&lane, &mut out);
    assert_eq!(out, vec!["b".to_string(), "a".to_string()]);
}

#[test]
fn effective_lane_prefers_monitor_lane() {
    let bar = vec!["clock".to_string()];
    let monitor = vec!["workspaces".to_string()];
    assert_eq!(effective_lane(Some(&monitor), &bar), &monitor[..]);
    assert_eq!(effective_lane(None, &bar), &bar[..]);
}

#[test]
fn battery_config_defaults_match_cpp() {
    let config = BatteryConfig::default();
    assert_eq!(config.warning_threshold, 10);
    assert!(config.device_thresholds.is_empty());
}

#[test]
fn calendar_config_defaults_match_cpp() {
    let config = CalendarConfig::default();
    assert!(!config.enabled);
    assert_eq!(config.refresh_minutes, 15);
    assert!(config.accounts.is_empty());
}

#[test]
fn config_change_set_default_is_all_true_and_any_returns_true() {
    let cs = ConfigChangeSet::default();
    assert!(cs.any());
}

#[test]
fn config_change_set_all_false_any_returns_false() {
    let cs = ConfigChangeSet {
        bars: false,
        widgets: false,
        desktop_widgets: false,
        lockscreen_widgets: false,
        wallpaper: false,
        backdrop: false,
        lockscreen: false,
        dock: false,
        shell: false,
        osd: false,
        notification: false,
        weather: false,
        calendar: false,
        system: false,
        audio: false,
        brightness: false,
        battery: false,
        keybinds: false,
        nightlight: false,
        location: false,
        idle: false,
        hooks: false,
        theme: false,
        control_center: false,
        plugins: false,
        hot_corners: false,
        storage: false,
        accessibility: false,
    };
    assert!(!cs.any());
}

#[test]
fn config_change_set_one_flag_is_enough() {
    let mut cs = ConfigChangeSet::default();
    cs.bars = false;
    assert!(cs.any());
}

#[test]
fn control_center_config_defaults_match_cpp() {
    let config = ControlCenterConfig::default();
    assert_eq!(config.sidebar_mode, "compact");
    assert_eq!(config.sidebar_section_mode, "compact");
    assert_eq!(config.width, 700);
    assert!(config.show_shortcut_labels);
    assert!(!config.shortcuts.is_empty());
    assert!(config.calendar_tab.show_events_card);
    assert_eq!(config.calendar_tab.event_time_format, "%H:%M");
}

#[test]
fn hook_kind_key_mappings() {
    assert_eq!(hook_kind_from_key("started"), Some(HookKind::Started));
    assert_eq!(hook_kind_from_key("power_profile_changed"), Some(HookKind::PowerProfileChanged));
    assert_eq!(hook_kind_from_key("unknown"), None);

    assert_eq!(hook_kind_key(HookKind::Started), "started");
    assert_eq!(hook_kind_key(HookKind::PowerProfileChanged), "power_profile_changed");
}

#[test]
fn hook_key_round_trips_for_every_kind() {
    let kinds = [
        HookKind::Started,
        HookKind::WallpaperChanged,
        HookKind::ColorsChanged,
        HookKind::ThemeModeChanged,
        HookKind::SessionLocked,
        HookKind::SessionUnlocked,
        HookKind::LoggingOut,
        HookKind::Rebooting,
        HookKind::ShuttingDown,
        HookKind::WifiEnabled,
        HookKind::WifiDisabled,
        HookKind::BluetoothEnabled,
        HookKind::BluetoothDisabled,
        HookKind::BatteryCharging,
        HookKind::BatteryDischarging,
        HookKind::BatteryPlugged,
        HookKind::BatteryPercentageChanged,
        HookKind::PowerProfileChanged,
    ];
    for kind in kinds {
        assert_eq!(HookKind::from_key(kind.key()), Some(kind));
    }
}

#[test]
fn hooks_config_commands_pick_the_kind() {
    let mut config = HooksConfig::default();
    assert!(config.commands(HookKind::Started).is_empty());
    config.rebooting = vec!["sync".to_string()];
    assert_eq!(config.commands(HookKind::Rebooting), &["sync".to_string()][..]);
    assert!(config.commands(HookKind::ShuttingDown).is_empty());
}

#[test]
fn hotcorners_config_defaults_match_cpp() {
    let config = HotCornersConfig::default();
    assert!(!config.enabled);
    assert_eq!(config.delay_ms, 0);
    assert_eq!(config.top_left.action, "none");
    assert_eq!(config.top_right.action, "none");
    assert_eq!(config.bottom_left.action, "none");
    assert_eq!(config.bottom_right.action, "none");
}

#[test]
fn nightlight_config_defaults_match_cpp() {
    let config = NightLightConfig::default();
    assert!(!config.enabled);
    assert!(!config.force);
    assert_eq!(config.day_temperature, 6500);
    assert_eq!(config.night_temperature, 4000);
    assert_eq!(NightLightConfig::TEMPERATURE_MIN, 1000);
    assert_eq!(NightLightConfig::TEMPERATURE_MAX, 10000);
    assert_eq!(NightLightConfig::TEMPERATURE_GAP, 100);
}

#[test]
fn notification_filter_config_defaults_match_cpp() {
    let filter = NotificationFilterConfig::default();
    assert_eq!(filter.name, "");
    assert!(filter.enabled);
    assert_eq!(filter.match_, "");
    assert_eq!(filter.match_content, "");
    assert!(filter.show_toast);
    assert!(filter.save_history);
    assert!(filter.play_sound);
    assert!(filter.allow_permanent);
    assert!(filter.override_duration.is_none());
    assert!(filter.allowed_urgencies.is_empty());
}

#[test]
fn default_plugin_sources_matches_cpp() {
    let sources = default_plugin_sources();
    assert_eq!(sources.len(), 2);
    assert_eq!(sources[0].name, "official");
    assert_eq!(sources[1].name, "community");

    assert!(is_default_plugin_source_name("official"));
    assert!(is_default_plugin_source_name("community"));
    assert!(!is_default_plugin_source_name("custom"));
}

#[test]
fn is_valid_plugin_source_name_matches_cpp_rules() {
    assert!(is_valid_plugin_source_name("official"));
    assert!(is_valid_plugin_source_name("my-repo_1.0"));
    assert!(!is_valid_plugin_source_name(""));
    assert!(!is_valid_plugin_source_name("."));
    assert!(!is_valid_plugin_source_name(".."));
    assert!(!is_valid_plugin_source_name("-invalid"));
    assert!(!is_valid_plugin_source_name("invalid/slash"));
}

#[test]
fn shadow_direction_offsets_match_cpp() {
    assert_eq!(shadow_direction_offset(ShadowDirection::Center), ShadowDirectionOffset { x: 0, y: 0 });
    assert_eq!(shadow_direction_offset(ShadowDirection::Down), ShadowDirectionOffset { x: 0, y: 2 });
    assert_eq!(shadow_direction_offset(ShadowDirection::Up), ShadowDirectionOffset { x: 0, y: -2 });
    assert_eq!(shadow_direction_offset(ShadowDirection::Left), ShadowDirectionOffset { x: -2, y: 0 });
    assert_eq!(shadow_direction_offset(ShadowDirection::Right), ShadowDirectionOffset { x: 2, y: 0 });
    assert_eq!(shadow_direction_offset(ShadowDirection::DownLeft), ShadowDirectionOffset { x: -2, y: 2 });
    assert_eq!(shadow_direction_offset(ShadowDirection::DownRight), ShadowDirectionOffset { x: 2, y: 2 });
    assert_eq!(shadow_direction_offset(ShadowDirection::UpLeft), ShadowDirectionOffset { x: -2, y: -2 });
    assert_eq!(shadow_direction_offset(ShadowDirection::UpRight), ShadowDirectionOffset { x: 2, y: -2 });
}

#[test]
fn default_control_center_shortcuts_matches_cpp_list() {
    let shortcuts = default_control_center_shortcuts();
    let kinds: Vec<&str> = shortcuts.iter().map(|s| s.type_.as_str()).collect();
    assert_eq!(kinds, vec!["wifi", "bluetooth", "caffeine", "nightlight", "notification", "power_profile"]);
}

#[test]
fn storage_config_defaults_match_cpp() {
    let config = StorageConfig::default();
    assert_eq!(config.key_source, StorageKeySource::SecretService);
    assert!(config.key_file.is_empty());
}

#[test]
fn theme_config_defaults_match_cpp() {
    let config = ThemeConfig::default();
    assert_eq!(config.source, PaletteSource::Builtin);
    assert_eq!(config.builtin_palette, "Noctalia");
    assert_eq!(config.community_palette, "Oxocarbon");
    assert_eq!(config.wallpaper_scheme, "m3-content");
    assert_eq!(config.mode, ThemeMode::Dark);
    assert!(!config.pure_black_dark);
    assert!(config.templates.enable_builtin_templates);
    assert!(config.templates.enable_community_templates);
}

#[test]
fn weather_config_defaults_match_cpp() {
    let config = WeatherConfig::default();
    assert!(config.enabled);
    assert!(config.effects);
    assert_eq!(config.refresh_minutes, 30);
    assert_eq!(config.unit, "metric");
}

fn strings(v: &[&str]) -> Vec<String> {
    v.iter().map(|s| s.to_string()).collect()
}

fn set_of(v: Vec<String>) -> HashSet<String> {
    v.into_iter().collect()
}

fn no_lanes() -> MonitorLanes {
    MonitorLanes { start_widgets: None, center_widgets: None, end_widgets: None, has_capsule_groups: false }
}

#[test]
fn resolve_idle_behavior_actions_lock() {
    // IdleBehaviorConfig defaults: command "", lock_before_suspend true.
    let res = resolve_idle_behavior_actions(&IdleBehaviorConfig {
        action: "lock".to_string(),
        lock_before_suspend: true,
        command: "".to_string(),
        resume_command: "echo resumed".to_string(),
        ..IdleBehaviorConfig::default()
    });
    assert_eq!(res.idle_action.kind, IdleActionKind::Lock);
    assert_eq!(res.resume_action.kind, IdleActionKind::NoAction);
    assert_eq!(res.resume_command, "echo resumed");
}

#[test]
fn resolve_idle_behavior_actions_screen_off() {
    let res = resolve_idle_behavior_actions(&IdleBehaviorConfig {
        action: "screen_off".to_string(),
        lock_before_suspend: true,
        command: "".to_string(),
        resume_command: "".to_string(),
        ..IdleBehaviorConfig::default()
    });
    assert_eq!(res.idle_action.kind, IdleActionKind::ScreenOff);
    assert_eq!(res.resume_action.kind, IdleActionKind::ScreenOn);
}

#[test]
fn resolve_idle_behavior_actions_suspend_normalizes_to_lock_and_suspend() {
    let res = resolve_idle_behavior_actions(&IdleBehaviorConfig {
        action: "suspend".to_string(),
        lock_before_suspend: true,
        command: "".to_string(),
        resume_command: "".to_string(),
        ..IdleBehaviorConfig::default()
    });
    assert_eq!(res.idle_action.kind, IdleActionKind::LockAndSuspend);
}

#[test]
fn resolve_idle_behavior_actions_custom_command() {
    let res = resolve_idle_behavior_actions(&IdleBehaviorConfig {
        action: "custom".to_string(),
        lock_before_suspend: true,
        command: "dim-screen.sh".to_string(),
        resume_command: "undim-screen.sh".to_string(),
        ..IdleBehaviorConfig::default()
    });
    assert_eq!(res.idle_action.kind, IdleActionKind::Command);
    assert_eq!(res.idle_action.command, "dim-screen.sh");
    assert_eq!(res.resume_command, "undim-screen.sh");
}

#[test]
fn suspend_without_lock_stays_a_plain_suspend() {
    let res = resolve_idle_behavior_actions(&IdleBehaviorConfig {
        action: "suspend".to_string(),
        lock_before_suspend: false,
        command: "".to_string(),
        resume_command: "".to_string(),
        ..IdleBehaviorConfig::default()
    });
    assert_eq!(res.idle_action.kind, IdleActionKind::Suspend);
}

#[test]
fn find_bar_capsule_group_style_finds_by_id_or_returns_none() {
    let groups = strings(&["g1"]);
    assert_eq!(find_bar_capsule_group_style(&groups, "g1"), Some(0));
    assert_eq!(find_bar_capsule_group_style(&groups, "missing"), None);
    assert_eq!(find_bar_capsule_group_style(&groups, ""), None);
}

#[test]
fn capsule_group_refs_for_bar_scope_collects_lane_tokens() {
    let bar = BarLanes {
        start_widgets: strings(&["group:a", "launcher"]),
        center_widgets: strings(&["group:b"]),
        end_widgets: Vec::new(),
    };
    let refs = capsule_group_refs_for_bar_scope(&bar, &[]);
    assert_eq!(set_of(refs), HashSet::from(["a".to_string(), "b".to_string()]));
}

#[test]
fn capsule_group_refs_for_bar_scope_skips_monitor_overrides_with_their_own_groups() {
    let bar = BarLanes { start_widgets: strings(&["group:a"]), center_widgets: Vec::new(), end_widgets: Vec::new() };
    let own_groups = MonitorLanes {
        start_widgets: Some(strings(&["group:b"])),
        has_capsule_groups: true,
        ..no_lanes()
    };
    let falls_back = MonitorLanes { center_widgets: Some(strings(&["group:c"])), ..no_lanes() };
    let refs = capsule_group_refs_for_bar_scope(&bar, &[own_groups, falls_back]);
    // "b" is excluded: that override carries its own capsule_group array.
    // "c" is included: its lanes fall back into the bar scope's reference set.
    assert_eq!(set_of(refs), HashSet::from(["a".to_string(), "c".to_string()]));
}

#[test]
fn capsule_group_refs_for_monitor_scope_uses_override_lane_or_falls_back_to_bar_lane() {
    let bar = BarLanes {
        start_widgets: Vec::new(),
        center_widgets: strings(&["group:bar-fallback"]),
        end_widgets: Vec::new(),
    };
    let ovr = MonitorLanes { start_widgets: Some(strings(&["group:override"])), ..no_lanes() };
    let refs = capsule_group_refs_for_monitor_scope(&bar, &ovr);
    assert_eq!(set_of(refs), HashSet::from(["override".to_string(), "bar-fallback".to_string()]));
}

#[test]
fn capsule_group_refs_list_each_group_once() {
    let bar = BarLanes {
        start_widgets: strings(&["group:a", "group:a"]),
        center_widgets: strings(&["group:a"]),
        end_widgets: strings(&["clock"]),
    };
    let refs = capsule_group_refs_for_bar_scope(&bar, &[no_lanes()]);
    assert_eq!(refs, strings(&["a"]));
}

#[test]
fn reconcile_capsule_groups_keeps_edited_style_reintroduces_file_group_and_prunes_unreferenced() {
    let base = strings(&["kept", "reintroduced"]);
    let current = strings(&["kept", "gui-created", "gui-orphaned"]);
    let referenced = strings(&["kept", "reintroduced", "gui-created"]);
    let result = reconcile_capsule_groups(&current, &base, &referenced);
    let ids: Vec<&str> = result
        .iter()
        .map(|g| match *g {
            CapsuleGroupSource::Current(i) => current[i].as_str(),
            CapsuleGroupSource::Base(j) => base[j].as_str(),
        })
        .collect();
    assert_eq!(ids, vec!["kept", "reintroduced", "gui-created"]);
    // The edited style survives, not the base's.
    assert_eq!(result[0], CapsuleGroupSource::Current(0));
}

#[test]
fn reconcile_capsule_groups_matches_repeated_ids_in_order() {
    let base = strings(&["a", "a"]);
    let current = strings(&["a"]);
    let referenced = strings(&["a"]);
    let result = reconcile_capsule_groups(&current, &base, &referenced);
    assert_eq!(result, vec![CapsuleGroupSource::Current(0), CapsuleGroupSource::Base(1)]);
}

#[test]
fn normalize_idle_behavior_action_turns_locked_suspend_into_lock_and_suspend() {
    use_normalize("suspend", true, "lock_and_suspend");
    use_normalize("suspend", false, "suspend");
    use_normalize("lock", true, "lock");
}

fn use_normalize(action: &str, lock: bool, expected: &str) {
    let mut a = action.to_string();
    noctalia_config::types::idle::normalize_idle_behavior_action(&mut a, lock);
    assert_eq!(a, expected);
}

#[test]
fn default_keybind_set_matches_cpp() {
    assert_eq!(default_keybind_set(KeybindAction::Cancel).len(), 1);
    assert_eq!(default_keybind_set(KeybindAction::Validate).len(), 3);
    assert_eq!(
        default_keybind_set(KeybindAction::TabPrevious),
        vec![KeyChord {
            sym: XKB_KEY_ISO_LEFT_TAB,
            modifiers: 1,
        }]
    );
}

#[test]
fn default_idle_behaviors_matches_cpp() {
    let defaults = default_idle_behaviors();
    assert_eq!(defaults.len(), 3);
    assert_eq!(defaults[0].name, "lock");
    assert_eq!(f64::from_bits(defaults[0].timeout_seconds), 600.0);
    assert_eq!(defaults[0].action, "lock");

    assert_eq!(defaults[1].name, "screen-off");
    assert_eq!(f64::from_bits(defaults[1].timeout_seconds), 660.0);
    assert_eq!(defaults[1].action, "screen_off");

    assert_eq!(defaults[2].name, "lock-and-suspend");
    assert_eq!(f64::from_bits(defaults[2].timeout_seconds), 900.0);
    assert_eq!(defaults[2].action, "lock_and_suspend");
}

#[test]
fn default_session_panel_actions_matches_cpp_list() {
    let actions = default_session_panel_actions();
    assert_eq!(actions.len(), 5);

    assert_eq!(actions[0].action, "lock");
    assert_eq!(actions[0].variant, "default");
    assert_eq!(actions[0].shortcut, Some(KeyChord { sym: 0x0031, modifiers: 0 }));

    assert_eq!(actions[1].action, "logout");
    assert_eq!(actions[1].shortcut.map(|c| c.sym), Some(0x0032));

    assert_eq!(actions[2].action, "lock_and_suspend");
    assert_eq!(actions[2].shortcut.map(|c| c.sym), Some(0x0033));

    assert_eq!(actions[3].action, "reboot");
    assert_eq!(actions[3].shortcut.map(|c| c.sym), Some(0x0034));

    assert_eq!(actions[4].action, "shutdown");
    assert_eq!(actions[4].variant, "destructive");
    assert_eq!(actions[4].shortcut, Some(KeyChord { sym: 0x0035, modifiers: 0 }));
}

#[test]
fn session_panel_action_config_default_matches_cpp_in_class_initializers() {
    let action = SessionPanelActionConfig::default();
    assert_eq!(action.action, "");
    assert!(action.enabled);
    assert_eq!(action.command, None);
    assert_eq!(action.variant, "default");
    assert_eq!(action.shortcut, None);
    assert_eq!(f64::from_bits(action.countdown_seconds), 0.0);
}
