//! A bar's settings, a monitor's overrides of them, and how an override is
//! resolved against its bar.
//!
//! Colors are a type parameter `C`: the library copies them and never looks
//! inside. Single-precision numbers are carried as their IEEE-754 bit pattern
//! (`u32`), double-precision ones as theirs (`u64`).

use std::collections::HashMap;
use vstd::prelude::*;
use crate::types::bar::{BarDeadZoneConfig, BarDeadZoneOverride};
use crate::types::widget_setting_value::{copy_strings, string_list_view};
use crate::ieee_bits::{spec_clamp32, spec_clamp64, clamp32, clamp64};

verus! {

/// A capsule group: an ordered set of member widgets sharing one capsule and style.
pub struct BarCapsuleGroupStyle<C> {
    pub id: String,
    pub members: Vec<String>,
    pub enabled: bool,
    pub fill: C,
    /// Whether `border` was written at all (an empty value means no outline).
    pub border_specified: bool,
    pub border: Option<C>,
    pub foreground: Option<C>,
    /// Bits of a single-precision number.
    pub padding: u32,
    /// Bits of a single-precision number.
    pub radius: Option<u32>,
    /// Bits of a single-precision number.
    pub opacity: u32,
}

/// The content of a [`BarCapsuleGroupStyle`].
pub struct CapsuleGroupView<C> {
    pub id: Seq<char>,
    pub members: Seq<Seq<char>>,
    pub enabled: bool,
    pub fill: C,
    pub border_specified: bool,
    pub border: Option<C>,
    pub foreground: Option<C>,
    pub padding: u32,
    pub radius: Option<u32>,
    pub opacity: u32,
}

impl<C> View for BarCapsuleGroupStyle<C> {
    type V = CapsuleGroupView<C>;

    open spec fn view(&self) -> CapsuleGroupView<C> {
        CapsuleGroupView {
            id: self.id@,
            members: string_list_view(self.members@),
            enabled: self.enabled,
            fill: self.fill,
            border_specified: self.border_specified,
            border: self.border,
            foreground: self.foreground,
            padding: self.padding,
            radius: self.radius,
            opacity: self.opacity,
        }
    }
}

/// The contents of a list of capsule groups.
pub open spec fn groups_view<C>(v: Seq<BarCapsuleGroupStyle<C>>) -> Seq<CapsuleGroupView<C>> {
    v.map_values(|g: BarCapsuleGroupStyle<C>| g@)
}

impl<C: Copy> BarCapsuleGroupStyle<C> {
    /// A copy of the group.
    pub fn copy(&self) -> (r: Self)
        ensures
            r@ == self@,
    {
        BarCapsuleGroupStyle {
            id: self.id.clone(),
            members: copy_strings(&self.members),
            enabled: self.enabled,
            fill: self.fill,
            border_specified: self.border_specified,
            border: self.border,
            foreground: self.foreground,
            padding: self.padding,
            radius: self.radius,
            opacity: self.opacity,
        }
    }
}

/// A copy of a list of capsule groups.
pub fn copy_groups<C: Copy>(v: &Vec<BarCapsuleGroupStyle<C>>) -> (r: Vec<BarCapsuleGroupStyle<C>>)
    ensures
        groups_view(r@) == groups_view(v@),
{
    let mut r: Vec<BarCapsuleGroupStyle<C>> = Vec::new();
    let mut i: usize = 0;
    while i < v.len()
        invariant
            0 <= i <= v@.len(),
            groups_view(r@) == groups_view(v@).take(i as int),
        decreases v.len() - i,
    {
        let g = v[i].copy();
        let ghost before = r@;
        r.push(g);
        assert(r@ == before.push(g));
        assert(groups_view(r@) =~= groups_view(before).push(v@[i as int]@));
        assert(groups_view(v@).take(i + 1) =~= groups_view(v@).take(i as int).push(v@[i as int]@));
        i += 1;
    }
    assert(groups_view(v@).take(i as int) =~= groups_view(v@));
    r
}

/// The strings of an optional list.
pub open spec fn opt_strings_view(o: Option<Vec<String>>) -> Option<Seq<Seq<char>>> {
    match o {
        Some(v) => Some(string_list_view(v@)),
        None => None,
    }
}

/// The groups of an optional list.
pub open spec fn opt_groups_view<C>(o: Option<Vec<BarCapsuleGroupStyle<C>>>) -> Option<Seq<CapsuleGroupView<C>>> {
    match o {
        Some(v) => Some(groups_view(v@)),
        None => None,
    }
}

/// The text of an optional string.
pub open spec fn opt_text_view(o: Option<String>) -> Option<Seq<char>> {
    match o {
        Some(s) => Some(s@),
        None => None,
    }
}

fn copy_opt_string(o: &Option<String>) -> (r: Option<String>)
    ensures
        opt_text_view(r) == opt_text_view(*o),
{
    match o {
        Some(s) => Some(s.clone()),
        None => None,
    }
}

fn copy_opt_strings(o: &Option<Vec<String>>) -> (r: Option<Vec<String>>)
    ensures
        opt_strings_view(r) == opt_strings_view(*o),
{
    match o {
        Some(v) => Some(copy_strings(v)),
        None => None,
    }
}

fn copy_opt_groups<C: Copy>(o: &Option<Vec<BarCapsuleGroupStyle<C>>>) -> (r: Option<Vec<BarCapsuleGroupStyle<C>>>)
    ensures
        opt_groups_view(r) == opt_groups_view(*o),
{
    match o {
        Some(v) => Some(copy_groups(v)),
        None => None,
    }
}

/// A monitor's overrides of its bar's settings: each field that is set
/// replaces the bar's own. The capsule padding and opacity are held as the
/// bar holds them, as single-precision bits.
pub struct BarMonitorOverride<C> {
    pub match_: String,
    pub position: Option<String>,
    pub enabled: Option<bool>,
    pub auto_hide: Option<bool>,
    pub smart_auto_hide: Option<bool>,
    pub show_on_workspace_switch: Option<bool>,
    pub reserve_space: Option<bool>,
    pub layer: Option<String>,
    pub thickness: Option<i32>,
    pub background_opacity: Option<u32>,
    pub border: Option<C>,
    pub border_width: Option<u32>,
    pub radius: Option<i32>,
    pub radius_top_left: Option<i32>,
    pub radius_top_right: Option<i32>,
    pub radius_bottom_left: Option<i32>,
    pub radius_bottom_right: Option<i32>,
    pub concave_edge_corners: Option<bool>,
    pub margin_ends: Option<i32>,
    pub margin_edge: Option<i32>,
    pub margin_opposite_edge: Option<i32>,
    pub padding: Option<i32>,
    pub widget_spacing: Option<i32>,
    pub shadow: Option<bool>,
    pub contact_shadow: Option<bool>,
    pub panel_overlap: Option<i32>,
    pub capsule_thickness: Option<u32>,
    pub font_family: Option<String>,
    pub scale: Option<u32>,
    pub start_widgets: Option<Vec<String>>,
    pub center_widgets: Option<Vec<String>>,
    pub end_widgets: Option<Vec<String>>,
    pub widget_capsule_default: Option<bool>,
    pub widget_capsule_fill: Option<C>,
    pub widget_capsule_foreground: Option<C>,
    pub widget_color: Option<C>,
    pub widget_icon_color: Option<C>,
    pub widget_capsule_groups: Option<Vec<BarCapsuleGroupStyle<C>>>,
    pub widget_capsule_padding: Option<u32>,
    /// Bits of a double-precision number.
    pub widget_capsule_radius: Option<u64>,
    pub widget_capsule_opacity: Option<u32>,
    pub widget_capsule_border_specified: bool,
    pub widget_capsule_border: Option<C>,
    pub hover_highlight: Option<bool>,
    pub dead_zone: BarDeadZoneOverride,
}

/// The content of a [`BarMonitorOverride`].
pub struct MonitorOverrideView<C> {
    pub match_: Seq<char>,
    pub position: Option<Seq<char>>,
    pub enabled: Option<bool>,
    pub auto_hide: Option<bool>,
    pub smart_auto_hide: Option<bool>,
    pub show_on_workspace_switch: Option<bool>,
    pub reserve_space: Option<bool>,
    pub layer: Option<Seq<char>>,
    pub thickness: Option<i32>,
    pub background_opacity: Option<u32>,
    pub border: Option<C>,
    pub border_width: Option<u32>,
    pub radius: Option<i32>,
    pub radius_top_left: Option<i32>,
    pub radius_top_right: Option<i32>,
    pub radius_bottom_left: Option<i32>,
    pub radius_bottom_right: Option<i32>,
    pub concave_edge_corners: Option<bool>,
    pub margin_ends: Option<i32>,
    pub margin_edge: Option<i32>,
    pub margin_opposite_edge: Option<i32>,
    pub padding: Option<i32>,
    pub widget_spacing: Option<i32>,
    pub shadow: Option<bool>,
    pub contact_shadow: Option<bool>,
    pub panel_overlap: Option<i32>,
    pub capsule_thickness: Option<u32>,
    pub font_family: Option<Seq<char>>,
    pub scale: Option<u32>,
    pub start_widgets: Option<Seq<Seq<char>>>,
    pub center_widgets: Option<Seq<Seq<char>>>,
    pub end_widgets: Option<Seq<Seq<char>>>,
    pub widget_capsule_default: Option<bool>,
    pub widget_capsule_fill: Option<C>,
    pub widget_capsule_foreground: Option<C>,
    pub widget_color: Option<C>,
    pub widget_icon_color: Option<C>,
    pub widget_capsule_groups: Option<Seq<CapsuleGroupView<C>>>,
    pub widget_capsule_padding: Option<u32>,
    pub widget_capsule_radius: Option<u64>,
    pub widget_capsule_opacity: Option<u32>,
    pub widget_capsule_border_specified: bool,
    pub widget_capsule_border: Option<C>,
    pub hover_highlight: Option<bool>,
    pub dead_zone_actions: Option<Map<String, String>>,
}

/// The bindings of an optional gesture map.
pub open spec fn opt_actions_view(o: Option<HashMap<String, String>>) -> Option<Map<String, String>> {
    match o {
        Some(m) => Some(m@),
        None => None,
    }
}

impl<C> View for BarMonitorOverride<C> {
    type V = MonitorOverrideView<C>;

    open spec fn view(&self) -> MonitorOverrideView<C> {
        MonitorOverrideView {
            match_: self.match_@,
            position: opt_text_view(self.position),
            enabled: self.enabled,
            auto_hide: self.auto_hide,
            smart_auto_hide: self.smart_auto_hide,
            show_on_workspace_switch: self.show_on_workspace_switch,
            reserve_space: self.reserve_space,
            layer: opt_text_view(self.layer),
            thickness: self.thickness,
            background_opacity: self.background_opacity,
            border: self.border,
            border_width: self.border_width,
            radius: self.radius,
            radius_top_left: self.radius_top_left,
            radius_top_right: self.radius_top_right,
            radius_bottom_left: self.radius_bottom_left,
            radius_bottom_right: self.radius_bottom_right,
            concave_edge_corners: self.concave_edge_corners,
            margin_ends: self.margin_ends,
            margin_edge: self.margin_edge,
            margin_opposite_edge: self.margin_opposite_edge,
            padding: self.padding,
            widget_spacing: self.widget_spacing,
            shadow: self.shadow,
            contact_shadow: self.contact_shadow,
            panel_overlap: self.panel_overlap,
            capsule_thickness: self.capsule_thickness,
            font_family: opt_text_view(self.font_family),
            scale: self.scale,
            start_widgets: opt_strings_view(self.start_widgets),
            center_widgets: opt_strings_view(self.center_widgets),
            end_widgets: opt_strings_view(self.end_widgets),
            widget_capsule_default: self.widget_capsule_default,
            widget_capsule_fill: self.widget_capsule_fill,
            widget_capsule_foreground: self.widget_capsule_foreground,
            widget_color: self.widget_color,
            widget_icon_color: self.widget_icon_color,
            widget_capsule_groups: opt_groups_view(self.widget_capsule_groups),
            widget_capsule_padding: self.widget_capsule_padding,
            widget_capsule_radius: self.widget_capsule_radius,
            widget_capsule_opacity: self.widget_capsule_opacity,
            widget_capsule_border_specified: self.widget_capsule_border_specified,
            widget_capsule_border: self.widget_capsule_border,
            hover_highlight: self.hover_highlight,
            dead_zone_actions: opt_actions_view(self.dead_zone.actions),
        }
    }
}

/// The value an override sets, else the bar's own.
pub open spec fn pick<T>(o: Option<T>, d: T) -> T {
    match o {
        Some(v) => v,
        None => d,
    }
}

impl<C: Copy> BarMonitorOverride<C> {
    /// Whether the bar hides itself on this monitor: the override's `auto_hide`
    /// (else the bar's) or its `smart_auto_hide` (else the bar's).
    pub fn is_auto_hide_enabled(&self, base_auto_hide: bool, base_smart_auto_hide: bool) -> (r: bool)
        ensures
            r == (pick(self.auto_hide, base_auto_hide) || pick(self.smart_auto_hide, base_smart_auto_hide)),
    {
        let a = match self.auto_hide {
            Some(v) => v,
            None => base_auto_hide,
        };
        let s = match self.smart_auto_hide {
            Some(v) => v,
            None => base_smart_auto_hide,
        };
        a || s
    }

    /// A copy of the override.
    pub fn copy(&self) -> (r: Self)
        ensures
            r@ == self@,
    {
        let actions = match &self.dead_zone.actions {
            Some(m) => Some(m.clone()),
            None => None,
        };
        BarMonitorOverride {
            match_: self.match_.clone(),
            position: copy_opt_string(&self.position),
            enabled: self.enabled,
            auto_hide: self.auto_hide,
            smart_auto_hide: self.smart_auto_hide,
            show_on_workspace_switch: self.show_on_workspace_switch,
            reserve_space: self.reserve_space,
            layer: copy_opt_string(&self.layer),
            thickness: self.thickness,
            background_opacity: self.background_opacity,
            border: self.border,
            border_width: self.border_width,
            radius: self.radius,
            radius_top_left: self.radius_top_left,
            radius_top_right: self.radius_top_right,
            radius_bottom_left: self.radius_bottom_left,
            radius_bottom_right: self.radius_bottom_right,
            concave_edge_corners: self.concave_edge_corners,
            margin_ends: self.margin_ends,
            margin_edge: self.margin_edge,
            margin_opposite_edge: self.margin_opposite_edge,
            padding: self.padding,
            widget_spacing: self.widget_spacing,
            shadow: self.shadow,
            contact_shadow: self.contact_shadow,
            panel_overlap: self.panel_overlap,
            capsule_thickness: self.capsule_thickness,
            font_family: copy_opt_string(&self.font_family),
            scale: self.scale,
            start_widgets: copy_opt_strings(&self.start_widgets),
            center_widgets: copy_opt_strings(&self.center_widgets),
            end_widgets: copy_opt_strings(&self.end_widgets),
            widget_capsule_default: self.widget_capsule_default,
            widget_capsule_fill: self.widget_capsule_fill,
            widget_capsule_foreground: self.widget_capsule_foreground,
            widget_color: self.widget_color,
            widget_icon_color: self.widget_icon_color,
            widget_capsule_groups: copy_opt_groups(&self.widget_capsule_groups),
            widget_capsule_padding: self.widget_capsule_padding,
            widget_capsule_radius: self.widget_capsule_radius,
            widget_capsule_opacity: self.widget_capsule_opacity,
            widget_capsule_border_specified: self.widget_capsule_border_specified,
            widget_capsule_border: self.widget_capsule_border,
            hover_highlight: self.hover_highlight,
            dead_zone: BarDeadZoneOverride { actions },
        }
    }
}

/// One bar's settings.
pub struct BarConfig<C> {
    /// Gesture to action bindings applied to every widget on this bar.
    pub actions: HashMap<String, String>,
    pub name: String,
    pub position: String,
    pub enabled: bool,
    pub auto_hide: bool,
    pub smart_auto_hide: bool,
    pub show_on_workspace_switch: bool,
    pub reserve_space: bool,
    pub layer: String,
    pub thickness: i32,
    pub background_opacity: u32,
    pub border: C,
    pub border_width: u32,
    pub radius: i32,
    pub radius_top_left: i32,
    pub radius_top_right: i32,
    pub radius_bottom_left: i32,
    pub radius_bottom_right: i32,
    pub concave_edge_corners: bool,
    pub margin_ends: i32,
    pub margin_edge: i32,
    pub margin_opposite_edge: i32,
    pub padding: i32,
    pub widget_spacing: i32,
    pub shadow: bool,
    pub contact_shadow: bool,
    pub panel_overlap: i32,
    pub capsule_thickness: u32,
    pub scale: u32,
    pub font_weight: i32,
    pub font_family: Option<String>,
    pub start_widgets: Vec<String>,
    pub center_widgets: Vec<String>,
    pub end_widgets: Vec<String>,
    pub widget_capsule_default: bool,
    pub widget_capsule_fill: C,
    pub widget_capsule_foreground: Option<C>,
    pub widget_color: Option<C>,
    pub widget_icon_color: Option<C>,
    pub widget_capsule_groups: Vec<BarCapsuleGroupStyle<C>>,
    pub widget_capsule_padding: u32,
    /// Bits of a double-precision number.
    pub widget_capsule_radius: Option<u64>,
    pub widget_capsule_opacity: u32,
    pub widget_capsule_border_specified: bool,
    pub widget_capsule_border: Option<C>,
    pub hover_highlight: bool,
    pub dead_zone: BarDeadZoneConfig,
    pub monitor_overrides: Vec<BarMonitorOverride<C>>,
}

/// The content of a [`BarConfig`].
pub struct BarConfigView<C> {
    pub actions: Map<String, String>,
    pub name: Seq<char>,
    pub position: Seq<char>,
    pub enabled: bool,
    pub auto_hide: bool,
    pub smart_auto_hide: bool,
    pub show_on_workspace_switch: bool,
    pub reserve_space: bool,
    pub layer: Seq<char>,
    pub thickness: i32,
    pub background_opacity: u32,
    pub border: C,
    pub border_width: u32,
    pub radius: i32,
    pub radius_top_left: i32,
    pub radius_top_right: i32,
    pub radius_bottom_left: i32,
    pub radius_bottom_right: i32,
    pub concave_edge_corners: bool,
    pub margin_ends: i32,
    pub margin_edge: i32,
    pub margin_opposite_edge: i32,
    pub padding: i32,
    pub widget_spacing: i32,
    pub shadow: bool,
    pub contact_shadow: bool,
    pub panel_overlap: i32,
    pub capsule_thickness: u32,
    pub scale: u32,
    pub font_weight: i32,
    pub font_family: Option<Seq<char>>,
    pub start_widgets: Seq<Seq<char>>,
    pub center_widgets: Seq<Seq<char>>,
    pub end_widgets: Seq<Seq<char>>,
    pub widget_capsule_default: bool,
    pub widget_capsule_fill: C,
    pub widget_capsule_foreground: Option<C>,
    pub widget_color: Option<C>,
    pub widget_icon_color: Option<C>,
    pub widget_capsule_groups: Seq<CapsuleGroupView<C>>,
    pub widget_capsule_padding: u32,
    pub widget_capsule_radius: Option<u64>,
    pub widget_capsule_opacity: u32,
    pub widget_capsule_border_specified: bool,
    pub widget_capsule_border: Option<C>,
    pub hover_highlight: bool,
    pub dead_zone_actions: Map<String, String>,
    pub monitor_overrides: Seq<MonitorOverrideView<C>>,
}

/// The contents of a list of monitor overrides.
pub open spec fn overrides_view<C>(v: Seq<BarMonitorOverride<C>>) -> Seq<MonitorOverrideView<C>> {
    v.map_values(|o: BarMonitorOverride<C>| o@)
}

impl<C> View for BarConfig<C> {
    type V = BarConfigView<C>;

    open spec fn view(&self) -> BarConfigView<C> {
        BarConfigView {
            actions: self.actions@,
            name: self.name@,
            position: self.position@,
            enabled: self.enabled,
            auto_hide: self.auto_hide,
            smart_auto_hide: self.smart_auto_hide,
            show_on_workspace_switch: self.show_on_workspace_switch,
            reserve_space: self.reserve_space,
            layer: self.layer@,
            thickness: self.thickness,
            background_opacity: self.background_opacity,
            border: self.border,
            border_width: self.border_width,
            radius: self.radius,
            radius_top_left: self.radius_top_left,
            radius_top_right: self.radius_top_right,
            radius_bottom_left: self.radius_bottom_left,
            radius_bottom_right: self.radius_bottom_right,
            concave_edge_corners: self.concave_edge_corners,
            margin_ends: self.margin_ends,
            margin_edge: self.margin_edge,
            margin_opposite_edge: self.margin_opposite_edge,
            padding: self.padding,
            widget_spacing: self.widget_spacing,
            shadow: self.shadow,
            contact_shadow: self.contact_shadow,
            panel_overlap: self.panel_overlap,
            capsule_thickness: self.capsule_thickness,
            scale: self.scale,
            font_weight: self.font_weight,
            font_family: opt_text_view(self.font_family),
            start_widgets: string_list_view(self.start_widgets@),
            center_widgets: string_list_view(self.center_widgets@),
            end_widgets: string_list_view(self.end_widgets@),
            widget_capsule_default: self.widget_capsule_default,
            widget_capsule_fill: self.widget_capsule_fill,
            widget_capsule_foreground: self.widget_capsule_foreground,
            widget_color: self.widget_color,
            widget_icon_color: self.widget_icon_color,
            widget_capsule_groups: groups_view(self.widget_capsule_groups@),
            widget_capsule_padding: self.widget_capsule_padding,
            widget_capsule_radius: self.widget_capsule_radius,
            widget_capsule_opacity: self.widget_capsule_opacity,
            widget_capsule_border_specified: self.widget_capsule_border_specified,
            widget_capsule_border: self.widget_capsule_border,
            hover_highlight: self.hover_highlight,
            dead_zone_actions: self.dead_zone.actions@,
            monitor_overrides: overrides_view(self.monitor_overrides@),
        }
    }
}

/// A copy of a list of monitor overrides.
pub fn copy_overrides<C: Copy>(v: &Vec<BarMonitorOverride<C>>) -> (r: Vec<BarMonitorOverride<C>>)
    ensures
        overrides_view(r@) == overrides_view(v@),
{
    let mut r: Vec<BarMonitorOverride<C>> = Vec::new();
    let mut i: usize = 0;
    while i < v.len()
        invariant
            0 <= i <= v@.len(),
            overrides_view(r@) == overrides_view(v@).take(i as int),
        decreases v.len() - i,
    {
        let o = v[i].copy();
        let ghost before = r@;
        r.push(o);
        assert(r@ == before.push(o));
        assert(overrides_view(r@) =~= overrides_view(before).push(v@[i as int]@));
        assert(overrides_view(v@).take(i + 1) =~= overrides_view(v@).take(i as int).push(v@[i as int]@));
        i += 1;
    }
    assert(overrides_view(v@).take(i as int) =~= overrides_view(v@));
    r
}

/// A bar's settings before any are read from the configuration, with the
/// outline color and the surface-variant color of the theme.
pub open spec fn spec_default_bar<C>(outline: C, surface_variant: C) -> BarConfigView<C> {
    BarConfigView {
        actions: Map::empty(),
        name: "default"@,
        position: "top"@,
        enabled: true,
        auto_hide: false,
        smart_auto_hide: false,
        show_on_workspace_switch: true,
        reserve_space: true,
        layer: "top"@,
        thickness: 34,
        background_opacity: ONE_BITS,
        border: outline,
        border_width: 0,
        radius: 12,
        radius_top_left: 12,
        radius_top_right: 12,
        radius_bottom_left: 12,
        radius_bottom_right: 12,
        concave_edge_corners: true,
        margin_ends: 100,
        margin_edge: 0,
        margin_opposite_edge: 0,
        padding: 14,
        widget_spacing: 6,
        shadow: true,
        contact_shadow: false,
        panel_overlap: 1,
        capsule_thickness: CAPSULE_THICKNESS_BITS,
        scale: ONE_BITS,
        font_weight: 500,
        font_family: None,
        start_widgets: seq!["launcher"@, "wallpaper"@, "workspaces"@],
        center_widgets: seq!["clock"@],
        end_widgets: seq![
            "media"@, "tray"@, "notifications"@, "clipboard"@, "network"@, "bluetooth"@,
            "volume"@, "brightness"@, "battery"@, "control-center"@, "session"@,
        ],
        widget_capsule_default: false,
        widget_capsule_fill: surface_variant,
        widget_capsule_foreground: None,
        widget_color: None,
        widget_icon_color: None,
        widget_capsule_groups: Seq::empty(),
        widget_capsule_padding: CAPSULE_PADDING_BITS,
        widget_capsule_radius: None,
        widget_capsule_opacity: ONE_BITS,
        widget_capsule_border_specified: false,
        widget_capsule_border: None,
        hover_highlight: true,
        dead_zone_actions: Map::empty(),
        monitor_overrides: Seq::empty(),
    }
}

/// Bits of the single-precision `1.0`.
pub const ONE_BITS: u32 = 0x3f80_0000u32;

/// Bits of the single-precision `0.76`, a bar's default capsule thickness.
pub const CAPSULE_THICKNESS_BITS: u32 = 0x3f42_8f5cu32;

/// Bits of the single-precision `6.0`, a bar's default capsule padding.
pub const CAPSULE_PADDING_BITS: u32 = 0x40c0_0000u32;

fn owned(s: &str) -> (r: String)
    ensures
        r@ == s@,
{
    s.to_owned()
}

impl<C: Copy> BarConfig<C> {
    /// A bar's settings before any are read from the configuration: the
    /// border takes `outline` and the capsule fill `surface_variant`.
    pub fn default_with_colors(outline: C, surface_variant: C) -> (r: Self)
        ensures
            r@ == spec_default_bar(outline, surface_variant),
    {
        let mut start: Vec<String> = Vec::new();
        start.push(owned("launcher"));
        start.push(owned("wallpaper"));
        start.push(owned("workspaces"));
        let mut center: Vec<String> = Vec::new();
        center.push(owned("clock"));
        let mut end: Vec<String> = Vec::new();
        end.push(owned("media"));
        end.push(owned("tray"));
        end.push(owned("notifications"));
        end.push(owned("clipboard"));
        end.push(owned("network"));
        end.push(owned("bluetooth"));
        end.push(owned("volume"));
        end.push(owned("brightness"));
        end.push(owned("battery"));
        end.push(owned("control-center"));
        end.push(owned("session"));
        let r = BarConfig {
            actions: HashMap::new(),
            name: owned("default"),
            position: owned("top"),
            enabled: true,
            auto_hide: false,
            smart_auto_hide: false,
            show_on_workspace_switch: true,
            reserve_space: true,
            layer: owned("top"),
            thickness: 34,
            background_opacity: ONE_BITS,
            border: outline,
            border_width: 0,
            radius: 12,
            radius_top_left: 12,
            radius_top_right: 12,
            radius_bottom_left: 12,
            radius_bottom_right: 12,
            concave_edge_corners: true,
            margin_ends: 100,
            margin_edge: 0,
            margin_opposite_edge: 0,
            padding: 14,
            widget_spacing: 6,
            shadow: true,
            contact_shadow: false,
            panel_overlap: 1,
            capsule_thickness: CAPSULE_THICKNESS_BITS,
            scale: ONE_BITS,
            font_weight: 500,
            font_family: None,
            start_widgets: start,
            center_widgets: center,
            end_widgets: end,
            widget_capsule_default: false,
            widget_capsule_fill: surface_variant,
            widget_capsule_foreground: None,
            widget_color: None,
            widget_icon_color: None,
            widget_capsule_groups: Vec::new(),
            widget_capsule_padding: CAPSULE_PADDING_BITS,
            widget_capsule_radius: None,
            widget_capsule_opacity: ONE_BITS,
            widget_capsule_border_specified: false,
            widget_capsule_border: None,
            hover_highlight: true,
            dead_zone: BarDeadZoneConfig { actions: HashMap::new() },
            monitor_overrides: Vec::new(),
        };
        assert(string_list_view(r.start_widgets@) =~= spec_default_bar(outline, surface_variant).start_widgets);
        assert(string_list_view(r.center_widgets@) =~= spec_default_bar(outline, surface_variant).center_widgets);
        assert(string_list_view(r.end_widgets@) =~= spec_default_bar(outline, surface_variant).end_widgets);
        assert(groups_view(r.widget_capsule_groups@) =~= Seq::empty());
        assert(overrides_view(r.monitor_overrides@) =~= Seq::empty());
        r
    }

    /// Whether the bar hides itself: `auto_hide` or `smart_auto_hide`.
    pub fn is_auto_hide_enabled(&self) -> (r: bool)
        ensures
            r == (self.auto_hide || self.smart_auto_hide),
    {
        self.auto_hide || self.smart_auto_hide
    }
}

/// The optional value an override sets, else the bar's own.
pub open spec fn pick_opt<T>(o: Option<T>, d: Option<T>) -> Option<T> {
    if o is Some { o } else { d }
}

/// A bar as one monitor shows it: every field the override sets replaces the
/// bar's own. `radius` sets all four corners, and a corner the override sets
/// itself wins over it. Capsule border, when the override writes one, replaces
/// the bar's (an empty one too). The dead-zone bindings are replaced whole.
#[verifier::opaque]
pub open spec fn spec_apply_monitor_override<C>(base: BarConfigView<C>, ovr: MonitorOverrideView<C>) -> BarConfigView<C> {
    BarConfigView {
        position: pick(ovr.position, base.position),
        enabled: pick(ovr.enabled, base.enabled),
        auto_hide: pick(ovr.auto_hide, base.auto_hide),
        smart_auto_hide: pick(ovr.smart_auto_hide, base.smart_auto_hide),
        show_on_workspace_switch: pick(ovr.show_on_workspace_switch, base.show_on_workspace_switch),
        reserve_space: pick(ovr.reserve_space, base.reserve_space),
        layer: pick(ovr.layer, base.layer),
        thickness: pick(ovr.thickness, base.thickness),
        background_opacity: pick(ovr.background_opacity, base.background_opacity),
        border: pick(ovr.border, base.border),
        border_width: pick(ovr.border_width, base.border_width),
        radius: pick(ovr.radius, base.radius),
        radius_top_left: pick(ovr.radius_top_left, pick(ovr.radius, base.radius_top_left)),
        radius_top_right: pick(ovr.radius_top_right, pick(ovr.radius, base.radius_top_right)),
        radius_bottom_left: pick(ovr.radius_bottom_left, pick(ovr.radius, base.radius_bottom_left)),
        radius_bottom_right: pick(ovr.radius_bottom_right, pick(ovr.radius, base.radius_bottom_right)),
        concave_edge_corners: pick(ovr.concave_edge_corners, base.concave_edge_corners),
        margin_ends: pick(ovr.margin_ends, base.margin_ends),
        margin_edge: pick(ovr.margin_edge, base.margin_edge),
        margin_opposite_edge: pick(ovr.margin_opposite_edge, base.margin_opposite_edge),
        padding: pick(ovr.padding, base.padding),
        widget_spacing: pick(ovr.widget_spacing, base.widget_spacing),
        shadow: pick(ovr.shadow, base.shadow),
        contact_shadow: pick(ovr.contact_shadow, base.contact_shadow),
        panel_overlap: pick(ovr.panel_overlap, base.panel_overlap),
        capsule_thickness: pick(ovr.capsule_thickness, base.capsule_thickness),
        scale: pick(ovr.scale, base.scale),
        font_family: pick_opt(ovr.font_family, base.font_family),
        start_widgets: pick(ovr.start_widgets, base.start_widgets),
        center_widgets: pick(ovr.center_widgets, base.center_widgets),
        end_widgets: pick(ovr.end_widgets, base.end_widgets),
        widget_capsule_default: pick(ovr.widget_capsule_default, base.widget_capsule_default),
        widget_capsule_fill: pick(ovr.widget_capsule_fill, base.widget_capsule_fill),
        widget_capsule_foreground: pick_opt(ovr.widget_capsule_foreground, base.widget_capsule_foreground),
        widget_color: pick_opt(ovr.widget_color, base.widget_color),
        widget_icon_color: pick_opt(ovr.widget_icon_color, base.widget_icon_color),
        widget_capsule_groups: pick(ovr.widget_capsule_groups, base.widget_capsule_groups),
        widget_capsule_padding: pick(ovr.widget_capsule_padding, base.widget_capsule_padding),
        widget_capsule_radius: pick_opt(ovr.widget_capsule_radius, base.widget_capsule_radius),
        widget_capsule_opacity: pick(ovr.widget_capsule_opacity, base.widget_capsule_opacity),
        widget_capsule_border_specified: ovr.widget_capsule_border_specified || base.widget_capsule_border_specified,
        widget_capsule_border: if ovr.widget_capsule_border_specified {
            ovr.widget_capsule_border
        } else {
            base.widget_capsule_border
        },
        hover_highlight: pick(ovr.hover_highlight, base.hover_highlight),
        dead_zone_actions: pick(ovr.dead_zone_actions, base.dead_zone_actions),
        ..base
    }
}

/// Bits of the single-precision `48.0`, the largest capsule padding.
pub const MAX_CAPSULE_PADDING_BITS: u32 = 0x4240_0000u32;

/// Bits of the double-precision `80.0`, the largest capsule radius.
pub const MAX_CAPSULE_RADIUS_BITS: u64 = 0x4054_0000_0000_0000u64;

/// The bar one monitor shows, as override changes are compared: like
/// [`spec_apply_monitor_override`], except that the override's `layer` is not
/// applied, the result holds no monitor overrides of its own, and the
/// override's capsule padding, radius and opacity are bounded to `[0, 48]`,
/// `[0, 80]` and `[0, 1]` (see [`spec_clamp32`]).
pub open spec fn spec_apply_for_comparison<C>(base: BarConfigView<C>, ovr: MonitorOverrideView<C>) -> BarConfigView<C> {
    comparison_bounds(spec_apply_monitor_override(base, ovr), base, ovr)
}

/// `resolved` with the base's `layer`, no monitor overrides, and the
/// override's capsule padding, radius and opacity bounded.
pub open spec fn comparison_bounds<C>(resolved: BarConfigView<C>, base: BarConfigView<C>, ovr: MonitorOverrideView<C>) -> BarConfigView<C> {
    BarConfigView {
        layer: base.layer,
        monitor_overrides: Seq::empty(),
        widget_capsule_padding: match ovr.widget_capsule_padding {
            Some(p) => spec_clamp32(p, MAX_CAPSULE_PADDING_BITS),
            None => base.widget_capsule_padding,
        },
        widget_capsule_radius: match ovr.widget_capsule_radius {
            Some(r) => Some(spec_clamp64(r, MAX_CAPSULE_RADIUS_BITS)),
            None => base.widget_capsule_radius,
        },
        widget_capsule_opacity: match ovr.widget_capsule_opacity {
            Some(o) => spec_clamp32(o, ONE_BITS),
            None => base.widget_capsule_opacity,
        },
        ..resolved
    }
}

fn pick_string(o: &Option<String>, d: &String) -> (r: String)
    ensures
        r@ == pick(opt_text_view(*o), d@),
{
    match o {
        Some(s) => s.clone(),
        None => d.clone(),
    }
}

fn pick_strings(o: &Option<Vec<String>>, d: &Vec<String>) -> (r: Vec<String>)
    ensures
        string_list_view(r@) == pick(opt_strings_view(*o), string_list_view(d@)),
{
    match o {
        Some(v) => copy_strings(v),
        None => copy_strings(d),
    }
}

fn pick_value<T: Copy>(o: Option<T>, d: T) -> (r: T)
    ensures
        r == pick(o, d),
{
    match o {
        Some(v) => v,
        None => d,
    }
}

fn pick_option<T: Copy>(o: Option<T>, d: Option<T>) -> (r: Option<T>)
    ensures
        r == pick_opt(o, d),
{
    if o.is_some() { o } else { d }
}

/// The bar as one monitor shows it, with the base bar's own monitor overrides kept.
pub fn apply_monitor_override<C: Copy>(base: &BarConfig<C>, ovr: &BarMonitorOverride<C>) -> (r: BarConfig<C>)
    ensures
        r@ == spec_apply_monitor_override(base@, ovr@),
{
    reveal(spec_apply_monitor_override);
    let font_family = match &ovr.font_family {
        Some(f) => Some(f.clone()),
        None => copy_opt_string(&base.font_family),
    };
    let groups = match &ovr.widget_capsule_groups {
        Some(g) => copy_groups(g),
        None => copy_groups(&base.widget_capsule_groups),
    };
    let dead_zone_actions = match &ovr.dead_zone.actions {
        Some(m) => m.clone(),
        None => base.dead_zone.actions.clone(),
    };
    let r = BarConfig {
        actions: base.actions.clone(),
        name: base.name.clone(),
        position: pick_string(&ovr.position, &base.position),
        enabled: pick_value(ovr.enabled, base.enabled),
        auto_hide: pick_value(ovr.auto_hide, base.auto_hide),
        smart_auto_hide: pick_value(ovr.smart_auto_hide, base.smart_auto_hide),
        show_on_workspace_switch: pick_value(ovr.show_on_workspace_switch, base.show_on_workspace_switch),
        reserve_space: pick_value(ovr.reserve_space, base.reserve_space),
        layer: pick_string(&ovr.layer, &base.layer),
        thickness: pick_value(ovr.thickness, base.thickness),
        background_opacity: pick_value(ovr.background_opacity, base.background_opacity),
        border: pick_value(ovr.border, base.border),
        border_width: pick_value(ovr.border_width, base.border_width),
        radius: pick_value(ovr.radius, base.radius),
        radius_top_left: pick_value(ovr.radius_top_left, pick_value(ovr.radius, base.radius_top_left)),
        radius_top_right: pick_value(ovr.radius_top_right, pick_value(ovr.radius, base.radius_top_right)),
        radius_bottom_left: pick_value(ovr.radius_bottom_left, pick_value(ovr.radius, base.radius_bottom_left)),
        radius_bottom_right: pick_value(ovr.radius_bottom_right, pick_value(ovr.radius, base.radius_bottom_right)),
        concave_edge_corners: pick_value(ovr.concave_edge_corners, base.concave_edge_corners),
        margin_ends: pick_value(ovr.margin_ends, base.margin_ends),
        margin_edge: pick_value(ovr.margin_edge, base.margin_edge),
        margin_opposite_edge: pick_value(ovr.margin_opposite_edge, base.margin_opposite_edge),
        padding: pick_value(ovr.padding, base.padding),
        widget_spacing: pick_value(ovr.widget_spacing, base.widget_spacing),
        shadow: pick_value(ovr.shadow, base.shadow),
        contact_shadow: pick_value(ovr.contact_shadow, base.contact_shadow),
        panel_overlap: pick_value(ovr.panel_overlap, base.panel_overlap),
        capsule_thickness: pick_value(ovr.capsule_thickness, base.capsule_thickness),
        scale: pick_value(ovr.scale, base.scale),
        font_weight: base.font_weight,
        font_family,
        start_widgets: pick_strings(&ovr.start_widgets, &base.start_widgets),
        center_widgets: pick_strings(&ovr.center_widgets, &base.center_widgets),
        end_widgets: pick_strings(&ovr.end_widgets, &base.end_widgets),
        widget_capsule_default: pick_value(ovr.widget_capsule_default, base.widget_capsule_default),
        widget_capsule_fill: pick_value(ovr.widget_capsule_fill, base.widget_capsule_fill),
        widget_capsule_foreground: pick_option(ovr.widget_capsule_foreground, base.widget_capsule_foreground),
        widget_color: pick_option(ovr.widget_color, base.widget_color),
        widget_icon_color: pick_option(ovr.widget_icon_color, base.widget_icon_color),
        widget_capsule_groups: groups,
        widget_capsule_padding: pick_value(ovr.widget_capsule_padding, base.widget_capsule_padding),
        widget_capsule_radius: pick_option(ovr.widget_capsule_radius, base.widget_capsule_radius),
        widget_capsule_opacity: pick_value(ovr.widget_capsule_opacity, base.widget_capsule_opacity),
        widget_capsule_border_specified: ovr.widget_capsule_border_specified || base.widget_capsule_border_specified,
        widget_capsule_border: if ovr.widget_capsule_border_specified {
            ovr.widget_capsule_border
        } else {
            base.widget_capsule_border
        },
        hover_highlight: pick_value(ovr.hover_highlight, base.hover_highlight),
        dead_zone: BarDeadZoneConfig { actions: dead_zone_actions },
        monitor_overrides: copy_overrides(&base.monitor_overrides),
    };
    r
}

/// The bar one monitor shows, as override changes are compared: the
/// override's `layer` is left out, the result holds no monitor overrides, and
/// the override's capsule padding, radius and opacity are bounded to
/// `[0, 48]`, `[0, 80]` and `[0, 1]`.
pub fn apply_monitor_override_for_comparison<C: Copy>(base: &BarConfig<C>, ovr: &BarMonitorOverride<C>) -> (r: BarConfig<C>)
    ensures
        r@ == spec_apply_for_comparison(base@, ovr@),
{
    let resolved = apply_monitor_override(base, ovr);
    let padding = match ovr.widget_capsule_padding {
        Some(p) => clamp32(p, MAX_CAPSULE_PADDING_BITS),
        None => base.widget_capsule_padding,
    };
    let radius = match ovr.widget_capsule_radius {
        Some(rad) => Some(clamp64(rad, MAX_CAPSULE_RADIUS_BITS)),
        None => base.widget_capsule_radius,
    };
    let opacity = match ovr.widget_capsule_opacity {
        Some(o) => clamp32(o, ONE_BITS),
        None => base.widget_capsule_opacity,
    };
    let ghost rv = resolved@;
    let r = finish_comparison(resolved, base.layer.clone(), padding, radius, opacity);
    assert(r@ =~= comparison_bounds(rv, base@, ovr@));
    r
}

fn finish_comparison<C: Copy>(resolved: BarConfig<C>, layer: String, padding: u32, radius: Option<u64>, opacity: u32) -> (r: BarConfig<C>)
    ensures
        r@ == (BarConfigView {
            layer: layer@,
            monitor_overrides: Seq::empty(),
            widget_capsule_padding: padding,
            widget_capsule_radius: radius,
            widget_capsule_opacity: opacity,
            ..resolved@
        }),
{
    let mut r = resolved;
    r.layer = layer;
    r.monitor_overrides = Vec::new();
    r.widget_capsule_padding = padding;
    r.widget_capsule_radius = radius;
    r.widget_capsule_opacity = opacity;
    assert(overrides_view(r.monitor_overrides@) =~= Seq::empty());
    r
}

/// An override that sets no field of its bar.
pub open spec fn sets_nothing<C>(o: MonitorOverrideView<C>) -> bool {
    &&& o.position is None && o.enabled is None && o.auto_hide is None && o.smart_auto_hide is None
    &&& o.show_on_workspace_switch is None && o.reserve_space is None && o.layer is None
    &&& o.thickness is None && o.background_opacity is None && o.border is None && o.border_width is None
    &&& o.radius is None && o.radius_top_left is None && o.radius_top_right is None
    &&& o.radius_bottom_left is None && o.radius_bottom_right is None && o.concave_edge_corners is None
    &&& o.margin_ends is None && o.margin_edge is None && o.margin_opposite_edge is None
    &&& o.padding is None && o.widget_spacing is None && o.shadow is None && o.contact_shadow is None
    &&& o.panel_overlap is None && o.capsule_thickness is None && o.font_family is None && o.scale is None
    &&& o.start_widgets is None && o.center_widgets is None && o.end_widgets is None
    &&& o.widget_capsule_default is None && o.widget_capsule_fill is None
    &&& o.widget_capsule_foreground is None && o.widget_color is None && o.widget_icon_color is None
    &&& o.widget_capsule_groups is None && o.widget_capsule_padding is None
    &&& o.widget_capsule_radius is None && o.widget_capsule_opacity is None
    &&& !o.widget_capsule_border_specified && o.hover_highlight is None && o.dead_zone_actions is None
}

/// An override that sets nothing shows the bar as it is.
pub proof fn lemma_empty_override_keeps_bar<C>(base: BarConfigView<C>, ovr: MonitorOverrideView<C>)
    requires
        sets_nothing(ovr),
    ensures
        spec_apply_monitor_override(base, ovr) == base,
{
    reveal(spec_apply_monitor_override);
}

/// Resolving a bar against an override a second time changes nothing more.
pub proof fn lemma_apply_monitor_override_settles<C>(base: BarConfigView<C>, ovr: MonitorOverrideView<C>)
    ensures
        spec_apply_monitor_override(spec_apply_monitor_override(base, ovr), ovr)
            == spec_apply_monitor_override(base, ovr),
{
    reveal(spec_apply_monitor_override);
}

/// The result holds `o`'s value when it is set, else `base`.
pub open spec fn takes_override<T>(o: Option<T>, base: T, result: T) -> bool {
    &&& (o matches Some(v) ==> result == v)
    &&& (o is None ==> result == base)
}

/// The result is `o` when it is set, else `base`.
pub open spec fn takes_optional_override<T>(o: Option<T>, base: Option<T>, result: Option<T>) -> bool {
    &&& (o is Some ==> result == o)
    &&& (o is None ==> result == base)
}

/// Every field an override sets replaces the bar's own on that monitor, and
/// every field it leaves unset keeps the bar's: an override's `enabled =
/// false` turns the bar off there. A corner radius comes from the corner's
/// own override, else from the override's `radius`, else from the bar.
pub proof fn lemma_override_fields_win<C>(base: BarConfigView<C>, ovr: MonitorOverrideView<C>)
    ensures
        ({
            let r = spec_apply_monitor_override(base, ovr);
            &&& (takes_override(ovr.position, base.position, r.position))
            &&& (takes_override(ovr.enabled, base.enabled, r.enabled))
            &&& (takes_override(ovr.auto_hide, base.auto_hide, r.auto_hide))
            &&& (takes_override(ovr.smart_auto_hide, base.smart_auto_hide, r.smart_auto_hide))
            &&& (takes_override(ovr.show_on_workspace_switch, base.show_on_workspace_switch, r.show_on_workspace_switch))
            &&& (takes_override(ovr.reserve_space, base.reserve_space, r.reserve_space))
            &&& (takes_override(ovr.layer, base.layer, r.layer))
            &&& (takes_override(ovr.thickness, base.thickness, r.thickness))
            &&& (takes_override(ovr.background_opacity, base.background_opacity, r.background_opacity))
            &&& (takes_override(ovr.border, base.border, r.border))
            &&& (takes_override(ovr.border_width, base.border_width, r.border_width))
            &&& (takes_override(ovr.radius, base.radius, r.radius))
            &&& (takes_override(ovr.concave_edge_corners, base.concave_edge_corners, r.concave_edge_corners))
            &&& (takes_override(ovr.margin_ends, base.margin_ends, r.margin_ends))
            &&& (takes_override(ovr.margin_edge, base.margin_edge, r.margin_edge))
            &&& (takes_override(ovr.margin_opposite_edge, base.margin_opposite_edge, r.margin_opposite_edge))
            &&& (takes_override(ovr.padding, base.padding, r.padding))
            &&& (takes_override(ovr.widget_spacing, base.widget_spacing, r.widget_spacing))
            &&& (takes_override(ovr.shadow, base.shadow, r.shadow))
            &&& (takes_override(ovr.contact_shadow, base.contact_shadow, r.contact_shadow))
            &&& (takes_override(ovr.panel_overlap, base.panel_overlap, r.panel_overlap))
            &&& (takes_override(ovr.capsule_thickness, base.capsule_thickness, r.capsule_thickness))
            &&& (takes_override(ovr.scale, base.scale, r.scale))
            &&& (takes_override(ovr.start_widgets, base.start_widgets, r.start_widgets))
            &&& (takes_override(ovr.center_widgets, base.center_widgets, r.center_widgets))
            &&& (takes_override(ovr.end_widgets, base.end_widgets, r.end_widgets))
            &&& (takes_override(ovr.widget_capsule_default, base.widget_capsule_default, r.widget_capsule_default))
            &&& (takes_override(ovr.widget_capsule_fill, base.widget_capsule_fill, r.widget_capsule_fill))
            &&& (takes_override(ovr.widget_capsule_groups, base.widget_capsule_groups, r.widget_capsule_groups))
            &&& (takes_override(ovr.widget_capsule_padding, base.widget_capsule_padding, r.widget_capsule_padding))
            &&& (takes_override(ovr.widget_capsule_opacity, base.widget_capsule_opacity, r.widget_capsule_opacity))
            &&& (takes_override(ovr.hover_highlight, base.hover_highlight, r.hover_highlight))
            &&& (takes_override(ovr.dead_zone_actions, base.dead_zone_actions, r.dead_zone_actions))
            &&& (takes_optional_override(ovr.font_family, base.font_family, r.font_family))
            &&& (takes_optional_override(ovr.widget_capsule_foreground, base.widget_capsule_foreground, r.widget_capsule_foreground))
            &&& (takes_optional_override(ovr.widget_color, base.widget_color, r.widget_color))
            &&& (takes_optional_override(ovr.widget_icon_color, base.widget_icon_color, r.widget_icon_color))
            &&& (takes_optional_override(ovr.widget_capsule_radius, base.widget_capsule_radius, r.widget_capsule_radius))
            &&& (ovr.radius_top_left matches Some(c) ==> r.radius_top_left == c)
            &&& (ovr.radius_top_left is None ==> (ovr.radius matches Some(c) ==> r.radius_top_left == c))
            &&& (ovr.radius_top_left is None && ovr.radius is None ==> r.radius_top_left == base.radius_top_left)
            &&& (ovr.radius_top_right matches Some(c) ==> r.radius_top_right == c)
            &&& (ovr.radius_top_right is None ==> (ovr.radius matches Some(c) ==> r.radius_top_right == c))
            &&& (ovr.radius_top_right is None && ovr.radius is None ==> r.radius_top_right == base.radius_top_right)
            &&& (ovr.radius_bottom_left matches Some(c) ==> r.radius_bottom_left == c)
            &&& (ovr.radius_bottom_left is None ==> (ovr.radius matches Some(c) ==> r.radius_bottom_left == c))
            &&& (ovr.radius_bottom_left is None && ovr.radius is None ==> r.radius_bottom_left == base.radius_bottom_left)
            &&& (ovr.radius_bottom_right matches Some(c) ==> r.radius_bottom_right == c)
            &&& (ovr.radius_bottom_right is None ==> (ovr.radius matches Some(c) ==> r.radius_bottom_right == c))
            &&& (ovr.radius_bottom_right is None && ovr.radius is None ==> r.radius_bottom_right == base.radius_bottom_right)
            &&& (ovr.widget_capsule_border_specified ==> r.widget_capsule_border == ovr.widget_capsule_border)
            &&& (!ovr.widget_capsule_border_specified ==> r.widget_capsule_border == base.widget_capsule_border)
            &&& (r.monitor_overrides == base.monitor_overrides)
        }),
{
    reveal(spec_apply_monitor_override);
}

/// The comparison form applies the override in the same way, except that the
/// layer stays the bar's, no monitor overrides remain, and the capsule
/// padding, radius and opacity it sets are bounded to `[0, 48]`, `[0, 80]`
/// and `[0, 1]`.
pub proof fn lemma_comparison_fields_win<C>(base: BarConfigView<C>, ovr: MonitorOverrideView<C>)
    ensures
        ({
            let r = spec_apply_for_comparison(base, ovr);
            &&& r.layer == base.layer
            &&& (ovr.widget_capsule_padding matches Some(p) ==> r.widget_capsule_padding == spec_clamp32(p, MAX_CAPSULE_PADDING_BITS))
            &&& (ovr.widget_capsule_radius matches Some(x) ==> r.widget_capsule_radius == Some(spec_clamp64(x, MAX_CAPSULE_RADIUS_BITS)))
            &&& (ovr.widget_capsule_opacity matches Some(o) ==> r.widget_capsule_opacity == spec_clamp32(o, ONE_BITS))
            &&& (ovr.widget_capsule_padding is None ==> r.widget_capsule_padding == base.widget_capsule_padding)
            &&& (ovr.widget_capsule_radius is None ==> r.widget_capsule_radius == base.widget_capsule_radius)
            &&& (ovr.widget_capsule_opacity is None ==> r.widget_capsule_opacity == base.widget_capsule_opacity)
        }),
        ({
            let r = spec_apply_for_comparison(base, ovr);
            &&& (takes_override(ovr.position, base.position, r.position))
            &&& (takes_override(ovr.enabled, base.enabled, r.enabled))
            &&& (takes_override(ovr.auto_hide, base.auto_hide, r.auto_hide))
            &&& (takes_override(ovr.smart_auto_hide, base.smart_auto_hide, r.smart_auto_hide))
            &&& (takes_override(ovr.show_on_workspace_switch, base.show_on_workspace_switch, r.show_on_workspace_switch))
            &&& (takes_override(ovr.reserve_space, base.reserve_space, r.reserve_space))
            &&& (takes_override(ovr.thickness, base.thickness, r.thickness))
            &&& (takes_override(ovr.background_opacity, base.background_opacity, r.background_opacity))
            &&& (takes_override(ovr.border, base.border, r.border))
            &&& (takes_override(ovr.border_width, base.border_width, r.border_width))
            &&& (takes_override(ovr.radius, base.radius, r.radius))
            &&& (takes_override(ovr.concave_edge_corners, base.concave_edge_corners, r.concave_edge_corners))
            &&& (takes_override(ovr.margin_ends, base.margin_ends, r.margin_ends))
            &&& (takes_override(ovr.margin_edge, base.margin_edge, r.margin_edge))
            &&& (takes_override(ovr.margin_opposite_edge, base.margin_opposite_edge, r.margin_opposite_edge))
            &&& (takes_override(ovr.padding, base.padding, r.padding))
            &&& (takes_override(ovr.widget_spacing, base.widget_spacing, r.widget_spacing))
            &&& (takes_override(ovr.shadow, base.shadow, r.shadow))
            &&& (takes_override(ovr.contact_shadow, base.contact_shadow, r.contact_shadow))
            &&& (takes_override(ovr.panel_overlap, base.panel_overlap, r.panel_overlap))
            &&& (takes_override(ovr.capsule_thickness, base.capsule_thickness, r.capsule_thickness))
            &&& (takes_override(ovr.scale, base.scale, r.scale))
            &&& (takes_override(ovr.start_widgets, base.start_widgets, r.start_widgets))
            &&& (takes_override(ovr.center_widgets, base.center_widgets, r.center_widgets))
            &&& (takes_override(ovr.end_widgets, base.end_widgets, r.end_widgets))
            &&& (takes_override(ovr.widget_capsule_default, base.widget_capsule_default, r.widget_capsule_default))
            &&& (takes_override(ovr.widget_capsule_fill, base.widget_capsule_fill, r.widget_capsule_fill))
            &&& (takes_override(ovr.widget_capsule_groups, base.widget_capsule_groups, r.widget_capsule_groups))
            &&& (takes_override(ovr.hover_highlight, base.hover_highlight, r.hover_highlight))
            &&& (takes_override(ovr.dead_zone_actions, base.dead_zone_actions, r.dead_zone_actions))
            &&& (takes_optional_override(ovr.font_family, base.font_family, r.font_family))
            &&& (takes_optional_override(ovr.widget_capsule_foreground, base.widget_capsule_foreground, r.widget_capsule_foreground))
            &&& (takes_optional_override(ovr.widget_color, base.widget_color, r.widget_color))
            &&& (takes_optional_override(ovr.widget_icon_color, base.widget_icon_color, r.widget_icon_color))
            &&& (ovr.radius_top_left matches Some(c) ==> r.radius_top_left == c)
            &&& (ovr.radius_top_left is None ==> (ovr.radius matches Some(c) ==> r.radius_top_left == c))
            &&& (ovr.radius_top_left is None && ovr.radius is None ==> r.radius_top_left == base.radius_top_left)
            &&& (ovr.radius_top_right matches Some(c) ==> r.radius_top_right == c)
            &&& (ovr.radius_top_right is None ==> (ovr.radius matches Some(c) ==> r.radius_top_right == c))
            &&& (ovr.radius_top_right is None && ovr.radius is None ==> r.radius_top_right == base.radius_top_right)
            &&& (ovr.radius_bottom_left matches Some(c) ==> r.radius_bottom_left == c)
            &&& (ovr.radius_bottom_left is None ==> (ovr.radius matches Some(c) ==> r.radius_bottom_left == c))
            &&& (ovr.radius_bottom_left is None && ovr.radius is None ==> r.radius_bottom_left == base.radius_bottom_left)
            &&& (ovr.radius_bottom_right matches Some(c) ==> r.radius_bottom_right == c)
            &&& (ovr.radius_bottom_right is None ==> (ovr.radius matches Some(c) ==> r.radius_bottom_right == c))
            &&& (ovr.radius_bottom_right is None && ovr.radius is None ==> r.radius_bottom_right == base.radius_bottom_right)
            &&& (ovr.widget_capsule_border_specified ==> r.widget_capsule_border == ovr.widget_capsule_border)
            &&& (!ovr.widget_capsule_border_specified ==> r.widget_capsule_border == base.widget_capsule_border)
            &&& (r.monitor_overrides == Seq::<MonitorOverrideView<C>>::empty())
        }),
{
    reveal(spec_apply_monitor_override);
}

impl<C> Default for BarMonitorOverride<C> {
    /// An override with no selector that sets nothing.
    fn default() -> (r: Self)
        ensures
            r.match_@ == Seq::<char>::empty(),
            sets_nothing(r@),
    {
        BarMonitorOverride {
            match_: String::new(),
            position: None,
            enabled: None,
            auto_hide: None,
            smart_auto_hide: None,
            show_on_workspace_switch: None,
            reserve_space: None,
            layer: None,
            thickness: None,
            background_opacity: None,
            border: None,
            border_width: None,
            radius: None,
            radius_top_left: None,
            radius_top_right: None,
            radius_bottom_left: None,
            radius_bottom_right: None,
            concave_edge_corners: None,
            margin_ends: None,
            margin_edge: None,
            margin_opposite_edge: None,
            padding: None,
            widget_spacing: None,
            shadow: None,
            contact_shadow: None,
            panel_overlap: None,
            capsule_thickness: None,
            font_family: None,
            scale: None,
            start_widgets: None,
            center_widgets: None,
            end_widgets: None,
            widget_capsule_default: None,
            widget_capsule_fill: None,
            widget_capsule_foreground: None,
            widget_color: None,
            widget_icon_color: None,
            widget_capsule_groups: None,
            widget_capsule_padding: None,
            widget_capsule_radius: None,
            widget_capsule_opacity: None,
            widget_capsule_border_specified: false,
            widget_capsule_border: None,
            hover_highlight: None,
            dead_zone: BarDeadZoneOverride { actions: None },
        }
    }
}

impl<C: Copy> BarCapsuleGroupStyle<C> {
    /// A capsule group before any of it is read: no id or members, enabled,
    /// filled with `surface_variant`, no border or foreground, the default
    /// padding, no radius, opaque.
    pub fn default_with_fill(surface_variant: C) -> (r: Self)
        ensures
            r@ == (CapsuleGroupView {
                id: Seq::empty(),
                members: Seq::empty(),
                enabled: true,
                fill: surface_variant,
                border_specified: false,
                border: None,
                foreground: None,
                padding: CAPSULE_PADDING_BITS,
                radius: None,
                opacity: ONE_BITS,
            }),
    {
        let r = BarCapsuleGroupStyle {
            id: String::new(),
            members: Vec::new(),
            enabled: true,
            fill: surface_variant,
            border_specified: false,
            border: None,
            foreground: None,
            padding: CAPSULE_PADDING_BITS,
            radius: None,
            opacity: ONE_BITS,
        };
        assert(string_list_view(r.members@) =~= Seq::empty());
        r
    }
}

} // verus!
