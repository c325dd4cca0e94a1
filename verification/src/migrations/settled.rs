//! A normalized document stays as it is: normalizing it again changes nothing
//! and reports nothing.

use vstd::prelude::*;
use crate::value::{
    TomlData, TableData, lookup, lookup_table, has_key, table_insert, map_subtables, gather_all,
    entry_silent, lemma_insert_lookup, lemma_update_subtable_other, lemma_update_subtable_same,
    lemma_gather_empty, lemma_gather_map_kept,
};
use crate::migrations::{
    spec_apply_step, step_for_version, legacy_issues_of, migrated_through, legacy_issues_through,
    spec_current_config_version,
};
use crate::migrations::radii::{
    radii_quiet, bar_radii_paths, bar_radii_paths_step, monitor_radii_paths,
    is_radius_key, has_negative_radius, spec_migrate_radii, lemma_radius_keys_apart, lemma_radii_unchanged,
    lemma_negative_radius_same, lemma_bar_quiet_kept, lemma_radii_idle, lemma_radii_quiet_after,
};
use crate::migrations::schedule::lemma_custom_schedule_quiet_after;
use crate::migrations::bar_actions::{
    spec_migrate_widget_actions, widget_actions_paths, middle_click_key, without_middle_click, with_bar_table,
    bars_with_default, middle_binding_step, middle_binding_bars_step, spec_migrate_dead_zone_actions,
    dead_zone_bar, dead_zone_bar_step, dead_zone_bars_step, migrate_owner_dead_zone, dead_zone_step,
    monitor_dead_zone_step, monitors_dead_zone_step, lemma_widget_actions_quiet_after, lemma_dead_zone_idle,
    lemma_dead_zone_quiet_after,
};
use crate::migrations::bindings::{spec_bind_action, bool_or_true, lemma_bind_keeps};
use crate::migrations::widgets::{
    lemma_gesture_settings_idle, lemma_gesture_settings_quiet_after, lemma_remaining_gestures_idle,
    lemma_remaining_gestures_quiet_after, lemma_custom_button_idle, lemma_custom_button_quiet_after,
    lemma_v4_quiet_kept_by_v5, lemma_v4_quiet_kept_by_v6, lemma_v5_quiet_kept_by_v6,
};
use crate::migrations::lockscreen::{lemma_login_box_idle, lemma_login_box_quiet_after};

verus! {

/// The top-level sections that the migrations read and edit are distinct,
/// and a bar's `monitor` table is neither its `actions` nor its `dead_zone` table.
pub proof fn lemma_section_keys_apart()
    ensures
        "bar"@ != "location"@ && "bar"@ != "shell"@ && "bar"@ != "widget"@ && "bar"@ != "lockscreen_widgets"@,
        "location"@ != "shell"@ && "location"@ != "widget"@ && "location"@ != "lockscreen_widgets"@,
        "shell"@ != "widget"@ && "shell"@ != "lockscreen_widgets"@,
        "widget"@ != "lockscreen_widgets"@,
        "monitor"@ != "actions"@ && "monitor"@ != "dead_zone"@,
{
    reveal_strlit("bar");
    reveal_strlit("location");
    reveal_strlit("shell");
    reveal_strlit("widget");
    reveal_strlit("lockscreen_widgets");
    reveal_strlit("monitor");
    reveal_strlit("actions");
    reveal_strlit("dead_zone");
    assert("dead_zone"@[0] == 'd');
    assert("bar"@.len() == 3 && "location"@.len() == 8 && "shell"@.len() == 5);
    assert("widget"@.len() == 6 && "lockscreen_widgets"@.len() == 18);
    assert("monitor"@[0] == 'm' && "actions"@[0] == 'a');
}

/// The document after the migration to version `v`.
pub open spec fn step_doc(v: int, root: TableData) -> TableData {
    spec_apply_step(step_for_version(v), root)
}

/// The migration to version `v` reports nothing for `root`.
pub open spec fn quiet(v: int, root: TableData) -> bool {
    legacy_issues_of(v, root).len() == 0
}

/// The top-level section that the migration to version `v` reads.
pub open spec fn section_of(v: int) -> Seq<char> {
    if v == 1 || v == 7 { "bar"@ }
    else if v == 2 { "location"@ }
    else if v == 3 { "shell"@ }
    else if v == 8 { "lockscreen_widgets"@ }
    else { "widget"@ }
}

/// The migration to version `v` may edit the top-level entry `k`.
pub open spec fn step_writes(v: int, k: Seq<char>) -> bool {
    if v == 3 { k == "shell"@ || k == "bar"@ } else { k == section_of(v) }
}

proof fn lemma_widget_actions_quiet_iff(r: TableData)
    ensures
        widget_actions_paths(r).len() == 0 <==> match lookup_table(r, "shell"@) {
            Some(sh) => !has_key(sh, middle_click_key()),
            None => true,
        },
{
}

/// Whether the migration to version `v` reports anything depends only on the
/// section it reads.
pub proof fn lemma_quiet_reads_section(v: int, r1: TableData, r2: TableData)
    requires
        1 <= v <= 8,
        lookup(r1, section_of(v)) == lookup(r2, section_of(v)),
    ensures
        quiet(v, r1) == quiet(v, r2),
{
    if v == 3 {
        lemma_widget_actions_quiet_iff(r1);
        lemma_widget_actions_quiet_iff(r2);
    }
}

/// The migration to version `v` leaves the top-level entries it does not edit as they are.
pub proof fn lemma_step_keeps_section(v: int, r: TableData, k: Seq<char>)
    requires
        1 <= v <= 8,
        !step_writes(v, k),
    ensures
        lookup(step_doc(v, r), k) == lookup(r, k),
{
    lemma_section_keys_apart();
    if v == 1 {
        lemma_update_subtable_other(r, "bar"@, crate::migrations::radii::bars_radii_step(), k);
    } else if v == 2 {
        if let Some(loc) = lookup_table(r, "location"@) {
            lemma_insert_lookup(r, "location"@, TomlData::Table(table_insert(loc, "custom_schedule"@, TomlData::Boolean(true))), k);
        }
    } else if v == 3 {
        if let Some(sh) = lookup_table(r, "shell"@) {
            let r1 = without_middle_click(r, sh);
            lemma_insert_lookup(r, "shell"@, TomlData::Table(crate::value::table_remove(sh, middle_click_key())), k);
            let r2 = with_bar_table(r1);
            if !has_key(r1, "bar"@) {
                lemma_insert_lookup(r1, "bar"@, TomlData::Table(Seq::empty()), k);
            }
            lemma_update_subtable_other(r2, "bar"@, middle_binding_bars_step(), k);
        }
    } else if v == 4 {
        lemma_update_subtable_other(r, "widget"@, crate::migrations::widgets::gesture_settings_widgets_step(), k);
    } else if v == 5 {
        lemma_update_subtable_other(r, "widget"@, crate::migrations::widgets::remaining_gestures_widgets_step(), k);
    } else if v == 6 {
        lemma_update_subtable_other(r, "widget"@, crate::migrations::widgets::custom_button_widgets_step(), k);
    } else if v == 7 {
        lemma_update_subtable_other(r, "bar"@, dead_zone_bars_step(), k);
    } else {
        lemma_update_subtable_other(r, "lockscreen_widgets"@, crate::migrations::lockscreen::lockscreen_section_step(), k);
    }
}


/// The monitor overrides of a bar that reports nothing give nothing either.
proof fn lemma_quiet_bar_monitors(name: Seq<char>, bar: TableData)
    requires
        bar_radii_paths(name, bar).len() == 0,
    ensures
        !has_negative_radius(bar),
        lookup_table(bar, "monitor"@) matches Some(m) ==> gather_all(m, monitor_radii_paths("bar."@ + name)).len() == 0,
{
    lemma_radii_unchanged(bar);
}

/// A monitor override whose radius keys are kept stays quiet.
proof fn lemma_monitor_quiet_kept(bar_path: Seq<char>, n: Seq<char>, mon: TableData, mon2: TableData)
    requires
        monitor_radii_paths(bar_path)(n, mon).len() == 0,
        forall|k: Seq<char>| is_radius_key(k) ==> #[trigger] lookup(mon2, k) == lookup(mon, k),
    ensures
        monitor_radii_paths(bar_path)(n, mon2).len() == 0,
{
    lemma_negative_radius_same(mon, mon2);
}

/// Migrating a bar's dead zones keeps a quiet bar quiet for the radius migration.
proof fn lemma_bar_quiet_kept_by_dead_zone(name: Seq<char>, bar: TableData)
    requires
        bar_radii_paths(name, bar).len() == 0,
    ensures
        bar_radii_paths(name, dead_zone_bar(bar)).len() == 0,
{
    lemma_radius_keys_apart();
    lemma_section_keys_apart();
    let bar_path = "bar."@ + name;
    let b1 = migrate_owner_dead_zone(bar);
    let b2 = dead_zone_bar(bar);
    lemma_quiet_bar_monitors(name, bar);
    assert forall|k: Seq<char>| is_radius_key(k) implies #[trigger] lookup(b2, k) == lookup(bar, k) by {
        lemma_update_subtable_other(bar, "dead_zone"@, dead_zone_step(), k);
        lemma_update_subtable_other(b1, "monitor"@, monitors_dead_zone_step(), k);
    }
    lemma_update_subtable_other(bar, "dead_zone"@, dead_zone_step(), "monitor"@);
    lemma_update_subtable_same(b1, "monitor"@, monitors_dead_zone_step());
    if let Some(m) = lookup_table(bar, "monitor"@) {
        let g = monitor_radii_paths(bar_path);
        assert forall|n: Seq<char>, mon: TableData| g(n, mon).len() == 0
            implies g(n, #[trigger] monitor_dead_zone_step()(n, mon)).len() == 0 by {
            assert forall|k: Seq<char>| is_radius_key(k)
                implies #[trigger] lookup(migrate_owner_dead_zone(mon), k) == lookup(mon, k) by {
                lemma_update_subtable_other(mon, "dead_zone"@, dead_zone_step(), k);
            }
            lemma_monitor_quiet_kept(bar_path, n, mon, migrate_owner_dead_zone(mon));
        }
        lemma_gather_map_kept(m, monitor_dead_zone_step(), g);
        let m2 = map_subtables(m, monitor_dead_zone_step());
        lemma_gather_empty(m2, g, m2.len() as int);
    }
    lemma_bar_quiet_kept(name, bar, b2);
}

/// The version 7 migration keeps a document quiet for the radius migration.
pub proof fn lemma_radii_quiet_kept_by_dead_zone(root: TableData)
    requires
        radii_quiet(root),
    ensures
        radii_quiet(spec_migrate_dead_zone_actions(root)),
{
    lemma_update_subtable_same(root, "bar"@, dead_zone_bars_step());
    if let Some(bars) = lookup_table(root, "bar"@) {
        assert forall|n: Seq<char>, bar: TableData| bar_radii_paths_step()(n, bar).len() == 0
            implies bar_radii_paths_step()(n, #[trigger] dead_zone_bar_step()(n, bar)).len() == 0 by {
            lemma_bar_quiet_kept_by_dead_zone(n, bar);
        }
        lemma_gather_map_kept(bars, dead_zone_bar_step(), bar_radii_paths_step());
    }
}

/// Binding a bar's middle click keeps a quiet bar quiet for the radius migration.
proof fn lemma_bar_quiet_kept_by_binding(name: Seq<char>, bar: TableData)
    requires
        bar_radii_paths(name, bar).len() == 0,
    ensures
        bar_radii_paths(name, spec_bind_action(bar, "middle"@, "none"@)).len() == 0,
{
    lemma_radius_keys_apart();
    lemma_section_keys_apart();
    let b2 = spec_bind_action(bar, "middle"@, "none"@);
    lemma_quiet_bar_monitors(name, bar);
    assert forall|k: Seq<char>| is_radius_key(k) implies #[trigger] lookup(b2, k) == lookup(bar, k) by {
        lemma_bind_keeps(bar, "middle"@, "none"@, k);
    }
    lemma_bind_keeps(bar, "middle"@, "none"@, "monitor"@);
    if let Some(m) = lookup_table(bar, "monitor"@) {
        lemma_gather_empty(m, monitor_radii_paths("bar."@ + name), m.len() as int);
    }
    lemma_bar_quiet_kept(name, bar, b2);
}

/// The version 3 migration keeps a document quiet for the radius migration.
pub proof fn lemma_radii_quiet_kept_by_widget_actions(root: TableData)
    requires
        radii_quiet(root),
    ensures
        radii_quiet(spec_migrate_widget_actions(root)),
{
    lemma_section_keys_apart();
    if let Some(sh) = lookup_table(root, "shell"@) {
        if has_key(sh, middle_click_key()) {
            let r1 = without_middle_click(root, sh);
            lemma_insert_lookup(root, "shell"@, TomlData::Table(crate::value::table_remove(sh, middle_click_key())), "bar"@);
            if !bool_or_true(lookup(sh, middle_click_key())) {
                let r2 = with_bar_table(r1);
                if !has_key(r1, "bar"@) {
                    lemma_insert_lookup(r1, "bar"@, TomlData::Table(Seq::empty()), "bar"@);
                }
                assert(radii_quiet(r2));
                lemma_update_subtable_same(r2, "bar"@, middle_binding_bars_step());
                if let Some(bars) = lookup_table(r2, "bar"@) {
                    let bd = bars_with_default(bars);
                    if bars.len() == 0 {
                        lemma_insert_lookup(bars, "default"@, TomlData::Table(Seq::empty()), "default"@);
                        assert(bd.len() == 1);
                        let empty = Seq::<(Seq<char>, TomlData)>::empty();
                        assert(!has_negative_radius(empty));
                        assert(spec_migrate_radii(empty) == empty);
                        assert(entry_silent(bd, bar_radii_paths_step(), 0));
                        lemma_gather_empty(bd, bar_radii_paths_step(), 1);
                    }
                    assert forall|n: Seq<char>, bar: TableData| bar_radii_paths_step()(n, bar).len() == 0
                        implies bar_radii_paths_step()(n, #[trigger] middle_binding_step()(n, bar)).len() == 0 by {
                        lemma_bar_quiet_kept_by_binding(n, bar);
                    }
                    lemma_gather_map_kept(bd, middle_binding_step(), bar_radii_paths_step());
                }
            }
        }
    }
}


/// A migration that reports nothing changes nothing.
pub proof fn lemma_quiet_step_idle(v: int, r: TableData)
    requires
        1 <= v <= 8,
        quiet(v, r),
    ensures
        step_doc(v, r) == r,
{
    if v == 1 {
        lemma_radii_idle(r);
    } else if v == 3 {
        lemma_widget_actions_quiet_iff(r);
    } else if v == 4 {
        lemma_gesture_settings_idle(r);
    } else if v == 5 {
        lemma_remaining_gestures_idle(r);
    } else if v == 6 {
        lemma_custom_button_idle(r);
    } else if v == 7 {
        lemma_dead_zone_idle(r);
    } else if v == 8 {
        lemma_login_box_idle(r);
    }
}

/// After a migration there is nothing left for it to do.
pub proof fn lemma_step_quiet_after(v: int, r: TableData)
    requires
        1 <= v <= 8,
    ensures
        quiet(v, step_doc(v, r)),
{
    if v == 1 {
        lemma_radii_quiet_after(r);
    } else if v == 2 {
        lemma_custom_schedule_quiet_after(r);
    } else if v == 3 {
        lemma_widget_actions_quiet_after(r);
    } else if v == 4 {
        lemma_gesture_settings_quiet_after(r);
    } else if v == 5 {
        lemma_remaining_gestures_quiet_after(r);
    } else if v == 6 {
        lemma_custom_button_quiet_after(r);
    } else if v == 7 {
        lemma_dead_zone_quiet_after(r);
    } else {
        lemma_login_box_quiet_after(r);
    }
}

/// A later migration keeps a document quiet for an earlier one.
pub proof fn lemma_quiet_kept(k: int, j: int, r: TableData)
    requires
        1 <= k < j <= 8,
        quiet(k, r),
    ensures
        quiet(k, step_doc(j, r)),
{
    lemma_section_keys_apart();
    if k == 1 && j == 3 {
        lemma_radii_quiet_kept_by_widget_actions(r);
    } else if k == 1 && j == 7 {
        lemma_radii_quiet_kept_by_dead_zone(r);
    } else if k == 4 && j == 5 {
        lemma_v4_quiet_kept_by_v5(r);
    } else if k == 4 && j == 6 {
        lemma_v4_quiet_kept_by_v6(r);
    } else if k == 5 && j == 6 {
        lemma_v5_quiet_kept_by_v6(r);
    } else {
        lemma_step_keeps_section(j, r, section_of(k));
        lemma_quiet_reads_section(k, r, step_doc(j, r));
    }
}

proof fn lemma_quiet_through(root: TableData, n: int)
    requires
        0 <= n <= 8,
    ensures
        forall|k: int| 1 <= k <= n ==> #[trigger] quiet(k, migrated_through(root, n)),
    decreases n,
{
    if n > 0 {
        let prev = migrated_through(root, n - 1);
        lemma_quiet_through(root, n - 1);
        lemma_step_quiet_after(n, prev);
        assert forall|k: int| 1 <= k <= n implies #[trigger] quiet(k, migrated_through(root, n)) by {
            if k < n {
                assert(quiet(k, prev));
                lemma_quiet_kept(k, n, prev);
            }
        }
    }
}

proof fn lemma_settled_prefix(r: TableData, n: int)
    requires
        0 <= n <= 8,
        forall|k: int| 1 <= k <= 8 ==> #[trigger] quiet(k, r),
    ensures
        migrated_through(r, n) == r,
        legacy_issues_through(r, n).len() == 0,
    decreases n,
{
    if n > 0 {
        lemma_settled_prefix(r, n - 1);
        assert(quiet(n, r));
        lemma_quiet_step_idle(n, r);
    }
}

/// Normalizing a normalized document again changes nothing and reports no issue.
pub proof fn lemma_normalize_settles(root: TableData)
    ensures
        migrated_through(migrated_through(root, spec_current_config_version() as int), spec_current_config_version() as int)
            == migrated_through(root, spec_current_config_version() as int),
        legacy_issues_through(migrated_through(root, spec_current_config_version() as int), spec_current_config_version() as int).len() == 0,
{
    let r = migrated_through(root, 8);
    lemma_quiet_through(root, 8);
    lemma_settled_prefix(r, 8);
}

} // verus!
