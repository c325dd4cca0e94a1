//! Reading sections of a configuration table into their typed settings.

use vstd::prelude::*;
use crate::value::{TomlTable, TomlValue, TomlData, TableData, lookup, items_data, lemma_items_data};
use crate::types::hooks::{HookKind, HooksConfig, spec_hook_key, spec_commands, hook_kind_key};
use crate::types::widget_setting_value::string_list_view;

verus! {

/// The strings among `items`, in order; other items are skipped.
pub open spec fn string_items(items: Seq<TomlData>) -> Seq<Seq<char>>
    decreases items.len(),
{
    if items.len() == 0 {
        Seq::empty()
    } else {
        string_items(items.drop_last()) + match items.last() {
            TomlData::String(s) => seq![s],
            _ => Seq::empty(),
        }
    }
}

/// The commands a hooks table sets for `kind`: the strings of the array
/// under the kind's key; `None` when that key holds no array.
pub open spec fn read_hook_commands(tbl: TableData, kind: HookKind) -> Option<Seq<Seq<char>>> {
    match lookup(tbl, spec_hook_key(kind)) {
        Some(TomlData::Array(items)) => Some(string_items(items)),
        _ => None,
    }
}

/// The commands configured for `kind`, as text.
pub open spec fn commands_view(c: HooksConfig, kind: HookKind) -> Seq<Seq<char>> {
    string_list_view(spec_commands(c, kind)@)
}

/// The strings among `items`, in order; other items are skipped.
pub fn strings_of_items(items: &Vec<TomlValue>) -> (r: Vec<String>)
    ensures
        string_list_view(r@) == string_items(items_data(items@, items@.len() as int)),
{
    proof { lemma_items_data(items@, items@.len() as int); }
    let ghost iv = items_data(items@, items@.len() as int);
    let mut r: Vec<String> = Vec::new();
    let mut i: usize = 0;
    while i < items.len()
        invariant
            iv == items_data(items@, items@.len() as int),
            iv.len() == items@.len(),
            forall|j: int| 0 <= j < iv.len() ==> #[trigger] iv[j] == items@[j]@,
            0 <= i <= items.len(),
            string_list_view(r@) == string_items(iv.take(i as int)),
        decreases items.len() - i,
    {
        assert(iv.take(i as int + 1).drop_last() =~= iv.take(i as int));
        assert(iv.take(i as int + 1).last() == items@[i as int]@);
        let ghost before = r@;
        match &items[i] {
            TomlValue::String(s) => {
                r.push(s.clone());
                assert(string_list_view(r@) =~= string_list_view(before).push(s@));
            },
            _ => {},
        }
        assert(string_list_view(r@) =~= string_items(iv.take(i as int + 1)));
        i += 1;
    }
    assert(iv.take(items@.len() as int) =~= iv);
    r
}

fn set_commands(c: &mut HooksConfig, kind: HookKind, v: Vec<String>)
    ensures
        spec_commands(*final(c), kind) == v,
        forall|k: HookKind| k != kind ==> spec_commands(*final(c), k) == spec_commands(*old(c), k),
{
    match kind {
        HookKind::LoggingOut => c.logging_out = v,
        HookKind::Rebooting => c.rebooting = v,
        HookKind::SessionLocked => c.session_locked = v,
        HookKind::SessionUnlocked => c.session_unlocked = v,
        HookKind::ShuttingDown => c.shutting_down = v,
        HookKind::ColorsChanged => c.colors_changed = v,
        HookKind::Started => c.started = v,
        HookKind::ThemeModeChanged => c.theme_mode_changed = v,
        HookKind::WallpaperChanged => c.wallpaper_changed = v,
        HookKind::BluetoothDisabled => c.bluetooth_disabled = v,
        HookKind::BluetoothEnabled => c.bluetooth_enabled = v,
        HookKind::WifiDisabled => c.wifi_disabled = v,
        HookKind::WifiEnabled => c.wifi_enabled = v,
        HookKind::BatteryCharging => c.battery_charging = v,
        HookKind::BatteryDischarging => c.battery_discharging = v,
        HookKind::BatteryPercentageChanged => c.battery_percentage_changed = v,
        HookKind::BatteryPlugged => c.battery_plugged = v,
        HookKind::PowerProfileChanged => c.power_profile_changed = v,
    }
}

fn read_hook(tbl: &TomlTable, c: &mut HooksConfig, kind: HookKind)
    ensures
        commands_view(*final(c), kind) == match read_hook_commands(tbl@, kind) {
            Some(v) => v,
            None => commands_view(*old(c), kind),
        },
        forall|k: HookKind| k != kind ==> spec_commands(*final(c), k) == spec_commands(*old(c), k),
{
    match tbl.get(hook_kind_key(kind)) {
        Some(TomlValue::Array(items)) => {
            let v = strings_of_items(items);
            set_commands(c, kind, v);
        },
        _ => {},
    }
}

/// Reads the `[hooks]` table into `c`: each hook whose key holds an array
/// takes the strings of that array as its commands; the others keep theirs.
pub fn read_hooks_config(tbl: &TomlTable, c: &mut HooksConfig)
    ensures
        forall|k: HookKind| #[trigger] commands_view(*final(c), k) == match read_hook_commands(tbl@, k) {
            Some(v) => v,
            None => commands_view(*old(c), k),
        },
{
    let ghost c0 = *c;
    read_hook(tbl, c, HookKind::Started);
    read_hook(tbl, c, HookKind::WallpaperChanged);
    read_hook(tbl, c, HookKind::ColorsChanged);
    read_hook(tbl, c, HookKind::ThemeModeChanged);
    read_hook(tbl, c, HookKind::SessionLocked);
    read_hook(tbl, c, HookKind::SessionUnlocked);
    read_hook(tbl, c, HookKind::LoggingOut);
    read_hook(tbl, c, HookKind::Rebooting);
    read_hook(tbl, c, HookKind::ShuttingDown);
    read_hook(tbl, c, HookKind::WifiEnabled);
    read_hook(tbl, c, HookKind::WifiDisabled);
    read_hook(tbl, c, HookKind::BluetoothEnabled);
    read_hook(tbl, c, HookKind::BluetoothDisabled);
    read_hook(tbl, c, HookKind::BatteryCharging);
    read_hook(tbl, c, HookKind::BatteryDischarging);
    read_hook(tbl, c, HookKind::BatteryPlugged);
    read_hook(tbl, c, HookKind::BatteryPercentageChanged);
    read_hook(tbl, c, HookKind::PowerProfileChanged);
}

} // verus!
