//! The registry of top-level configuration sections.

use vstd::prelude::*;
use crate::text::str_equal;

verus! {

/// The schema-backed sections, in registry order.
pub open spec fn spec_section_names() -> Seq<Seq<char>> {
    seq![
        "storage"@, "shell"@, "accessibility"@, "wallpaper"@, "theme"@, "backdrop"@, "lockscreen"@,
        "notification"@, "osd"@, "system"@, "weather"@, "calendar"@, "audio"@, "brightness"@,
        "battery"@, "nightlight"@, "location"@, "idle"@, "keybinds"@, "dock"@, "hot_corners"@,
        "control_center"@, "plugins"@, "hooks"@,
    ]
}

/// The root keys handled outside the section registry.
pub open spec fn spec_custom_root_keys() -> Seq<Seq<char>> {
    seq![
        "bar"@, "widget"@, "desktop_widgets"@, "lockscreen_widgets"@, "plugin_settings"@, "include"@,
        "config_version"@, "config"@,
    ]
}

/// The views of a list of string slices.
pub open spec fn strs_view(v: Seq<&str>) -> Seq<Seq<char>> {
    v.map_values(|s: &str| s@)
}

/// The names of the schema-backed sections, in registry order.
pub fn section_names() -> (names: Vec<&'static str>)
    ensures
        strs_view(names@) == spec_section_names(),
{
    let names: Vec<&'static str> = vec![
        "storage", "shell", "accessibility", "wallpaper", "theme", "backdrop", "lockscreen",
        "notification", "osd", "system", "weather", "calendar", "audio", "brightness",
        "battery", "nightlight", "location", "idle", "keybinds", "dock", "hot_corners",
        "control_center", "plugins", "hooks",
    ];
    assert(strs_view(names@) =~= spec_section_names());
    names
}

/// The root keys handled outside the section registry.
pub fn custom_root_keys() -> (keys: Vec<&'static str>)
    ensures
        strs_view(keys@) == spec_custom_root_keys(),
{
    let keys: Vec<&'static str> = vec![
        "bar", "widget", "desktop_widgets", "lockscreen_widgets", "plugin_settings", "include",
        "config_version", "config",
    ];
    assert(strs_view(keys@) =~= spec_custom_root_keys());
    keys
}

fn contains_str(list: &Vec<&'static str>, name: &str) -> (r: bool)
    ensures
        r == strs_view(list@).contains(name@),
{
    let mut i: usize = 0;
    while i < list.len()
        invariant
            0 <= i <= list.len(),
            forall|k: int| 0 <= k < i ==> strs_view(list@)[k] != name@,
        decreases list.len() - i,
    {
        if str_equal(list[i], name) {
            assert(strs_view(list@)[i as int] == name@);
            return true;
        }
        i += 1;
    }
    false
}

/// Whether `name` is a schema-backed section.
pub fn is_section_name(name: &str) -> (r: bool)
    ensures
        r == spec_section_names().contains(name@),
{
    contains_str(&section_names(), name)
}

/// Whether `name` may stand at the root of a configuration document.
pub fn is_known_root_key(name: &str) -> (r: bool)
    ensures
        r == (spec_section_names().contains(name@) || spec_custom_root_keys().contains(name@)),
{
    is_section_name(name) || contains_str(&custom_root_keys(), name)
}

} // verus!
