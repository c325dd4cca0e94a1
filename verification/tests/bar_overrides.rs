use std::collections::HashMap;

use noctalia_config::types::bar_config::{
    apply_monitor_override, apply_monitor_override_for_comparison, BarCapsuleGroupStyle, BarConfig,
    BarMonitorOverride,
};
use noctalia_config::types::bar::BarDeadZoneOverride;
use noctalia_config::ieee_bits::{clamp32, clamp64};

const OUTLINE: u32 = 1;
const SURFACE_VARIANT: u32 = 2;

fn default_bar() -> BarConfig<u32> {
    BarConfig::default_with_colors(OUTLINE, SURFACE_VARIANT)
}

#[test]
fn apply_monitor_override_resolves_thickness_and_radius_group() {
    let base = default_bar();
    let ovr = BarMonitorOverride { thickness: Some(99), radius: Some(5), ..Default::default() };
    let resolved = apply_monitor_override_for_comparison(&base, &ovr);
    assert_eq!(resolved.thickness, 99);
    assert_eq!(resolved.radius, 5);
    assert_eq!(resolved.radius_top_left, 5);
    assert_eq!(resolved.radius_top_right, 5);
    assert_eq!(resolved.radius_bottom_left, 5);
    assert_eq!(resolved.radius_bottom_right, 5);
    assert!(resolved.monitor_overrides.is_empty());
}

#[test]
fn apply_monitor_override_individual_corner_wins_over_group_radius() {
    let base = default_bar();
    let ovr = BarMonitorOverride { radius: Some(5), radius_top_left: Some(9), ..Default::default() };
    let resolved = apply_monitor_override_for_comparison(&base, &ovr);
    assert_eq!(resolved.radius_top_left, 9);
    assert_eq!(resolved.radius_top_right, 5);
}

#[test]
fn apply_monitor_override_dead_zone_actions_replace_wholesale() {
    let base = default_bar();
    let ovr = BarMonitorOverride {
        dead_zone: BarDeadZoneOverride {
            actions: Some(HashMap::from([("swipe_up".to_string(), "toggle".to_string())])),
        },
        ..Default::default()
    };
    let resolved = apply_monitor_override_for_comparison(&base, &ovr);
    assert_eq!(resolved.dead_zone.actions.get("swipe_up").map(String::as_str), Some("toggle"));
}

#[test]
fn apply_monitor_override_never_applies_layer_matching_the_cpp_omission() {
    let mut base = default_bar();
    base.layer = "top".to_string();
    let ovr = BarMonitorOverride { layer: Some("overlay".to_string()), ..Default::default() };
    let resolved = apply_monitor_override_for_comparison(&base, &ovr);
    assert_eq!(resolved.layer, "top");
}

#[test]
fn apply_monitor_override_clamps_capsule_padding_radius_opacity() {
    let base = default_bar();
    let ovr = BarMonitorOverride {
        widget_capsule_padding: Some(999.0f32.to_bits()),
        widget_capsule_radius: Some(999.0f64.to_bits()),
        widget_capsule_opacity: Some(999.0f32.to_bits()),
        ..Default::default()
    };
    let resolved = apply_monitor_override_for_comparison(&base, &ovr);
    assert_eq!(f32::from_bits(resolved.widget_capsule_padding), 48.0);
    assert_eq!(resolved.widget_capsule_radius.map(f64::from_bits), Some(80.0));
    assert_eq!(f32::from_bits(resolved.widget_capsule_opacity), 1.0);
}

#[test]
fn bit_clamps_agree_with_float_clamp() {
    let samples32: Vec<f32> = vec![
        -1.0e30, -48.5, -1.0, -1.0e-40, -0.0, 0.0, 1.0e-40, 0.5, 1.0, 1.0000001, 47.9, 48.0, 48.1, 1.0e30,
        f32::INFINITY, f32::NEG_INFINITY,
    ];
    for x in samples32 {
        for hi in [1.0f32, 48.0] {
            assert_eq!(clamp32(x.to_bits(), hi.to_bits()), x.clamp(0.0, hi).to_bits(), "{x} to {hi}");
        }
    }
    assert!(f32::from_bits(clamp32(f32::NAN.to_bits(), 48.0f32.to_bits())).is_nan());
    let samples64: Vec<f64> = vec![-1.0e300, -80.0, -0.0, 0.0, 1.0e-310, 79.99, 80.0, 80.01, f64::INFINITY, f64::NEG_INFINITY];
    for x in samples64 {
        assert_eq!(clamp64(x.to_bits(), 80.0f64.to_bits()), x.clamp(0.0, 80.0).to_bits(), "{x}");
    }
    assert!(f64::from_bits(clamp64(f64::NAN.to_bits(), 80.0f64.to_bits())).is_nan());
}

#[test]
fn export_resolution_applies_layer_and_keeps_monitor_overrides() {
    let mut base = default_bar();
    base.monitor_overrides.push(BarMonitorOverride { match_: "DP-1".to_string(), ..Default::default() });
    let ovr = BarMonitorOverride {
        layer: Some("overlay".to_string()),
        position: Some("bottom".to_string()),
        border: Some(7),
        ..Default::default()
    };
    let resolved = apply_monitor_override(&base, &ovr);
    assert_eq!(resolved.layer, "overlay");
    assert_eq!(resolved.position, "bottom");
    assert_eq!(resolved.border, 7);
    assert_eq!(resolved.monitor_overrides.len(), 1);
    assert_eq!(resolved.monitor_overrides[0].match_, "DP-1");
}

#[test]
fn override_lanes_and_capsule_groups_replace_the_bars() {
    let base = default_bar();
    let group = BarCapsuleGroupStyle {
        id: "g".to_string(),
        members: vec!["clock".to_string()],
        enabled: true,
        fill: 3,
        border_specified: false,
        border: None,
        foreground: None,
        padding: 6.0f32.to_bits(),
        radius: None,
        opacity: 1.0f32.to_bits(),
    };
    let ovr = BarMonitorOverride {
        start_widgets: Some(vec!["clock".to_string()]),
        widget_capsule_groups: Some(vec![group]),
        ..Default::default()
    };
    let resolved = apply_monitor_override(&base, &ovr);
    assert_eq!(resolved.start_widgets, vec!["clock".to_string()]);
    assert_eq!(resolved.center_widgets, vec!["clock".to_string()]);
    assert_eq!(resolved.widget_capsule_groups.len(), 1);
    assert_eq!(resolved.widget_capsule_groups[0].id, "g");
    assert_eq!(resolved.widget_capsule_groups[0].members, vec!["clock".to_string()]);
}

#[test]
fn capsule_border_written_empty_clears_the_bars() {
    let mut base = default_bar();
    base.widget_capsule_border_specified = true;
    base.widget_capsule_border = Some(5);
    let ovr = BarMonitorOverride { widget_capsule_border_specified: true, ..Default::default() };
    let resolved = apply_monitor_override(&base, &ovr);
    assert!(resolved.widget_capsule_border_specified);
    assert_eq!(resolved.widget_capsule_border, None);
}

#[test]
fn empty_override_leaves_the_bar_as_it_is() {
    let base = default_bar();
    let resolved = apply_monitor_override(&base, &BarMonitorOverride::default());
    assert_eq!(resolved.thickness, base.thickness);
    assert_eq!(resolved.position, base.position);
    assert_eq!(resolved.end_widgets, base.end_widgets);
    assert_eq!(resolved.border, OUTLINE);
}

#[test]
fn applying_an_override_twice_changes_nothing_more() {
    let base = default_bar();
    let ovr = BarMonitorOverride { thickness: Some(40), radius: Some(3), ..Default::default() };
    let once = apply_monitor_override(&base, &ovr);
    let twice = apply_monitor_override(&once, &ovr);
    assert_eq!(twice.thickness, once.thickness);
    assert_eq!(twice.radius_bottom_right, once.radius_bottom_right);
}

#[test]
fn default_bar_matches_the_shell_defaults() {
    let bar = default_bar();
    assert_eq!(bar.name, "default");
    assert_eq!(bar.position, "top");
    assert_eq!(bar.thickness, 34);
    assert_eq!(bar.radius_top_left, 12);
    assert_eq!(bar.margin_ends, 100);
    assert_eq!(f32::from_bits(bar.capsule_thickness), 0.76);
    assert_eq!(f32::from_bits(bar.widget_capsule_padding), 6.0);
    assert_eq!(bar.border, OUTLINE);
    assert_eq!(bar.widget_capsule_fill, SURFACE_VARIANT);
    assert_eq!(bar.end_widgets.len(), 11);
    assert!(!bar.is_auto_hide_enabled());
}

#[test]
fn monitor_override_auto_hide_falls_back_to_the_bar() {
    let ovr: BarMonitorOverride<u32> = BarMonitorOverride { smart_auto_hide: Some(true), ..Default::default() };
    assert!(ovr.is_auto_hide_enabled(false, false));
    let none: BarMonitorOverride<u32> = BarMonitorOverride::default();
    assert!(!none.is_auto_hide_enabled(false, false));
    assert!(none.is_auto_hide_enabled(true, false));
}

#[test]
fn capsule_group_defaults_take_the_given_fill() {
    let g = BarCapsuleGroupStyle::default_with_fill(SURFACE_VARIANT);
    assert!(g.id.is_empty());
    assert!(g.enabled);
    assert_eq!(g.fill, SURFACE_VARIANT);
    assert_eq!(f32::from_bits(g.padding), 6.0);
    assert_eq!(f32::from_bits(g.opacity), 1.0);
    assert_eq!(g.radius, None);
}
